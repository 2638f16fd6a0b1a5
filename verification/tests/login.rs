use greed_compute::api::login::{login_begin, login_next, LoginEvent, LoginPlan, LoginWork};
use greed_compute::db::ApiKeyInfo;
use greed_compute::http::{Next, Response};
use greed_compute::json::{parse_json, print_json};

fn logs_in(state: Option<&str>, events: Vec<LoginEvent>) -> Vec<String> {
    let plan = LoginPlan {
        client_id: "id".to_string(),
        client_secret: "secret".to_string(),
        code: "code".to_string(),
        state: state.map(|s| s.to_string()),
        frontend_url: Some("https://f".to_string()),
    };
    let show = |w: &LoginWork| match w {
        LoginWork::Wait => "wait".to_string(),
        LoginWork::Exchange(j) => format!("exchange {}", print_json(j)),
        LoginWork::Ask(t) => format!("ask {}", t),
        LoginWork::Find(n) => format!("find {}", n),
        LoginWork::Create(n, t) => format!("create {} {}", n, t),
    };
    let (mut s, work) = login_begin(&plan);
    let mut out = vec![show(&work)];
    for e in events {
        match login_next(&plan, s, e) {
            Next::Do(next, work) => {
                s = next;
                out.push(show(&work));
            }
            Next::Answer(Response::Redirect(url)) => {
                out.push(url);
                return out;
            }
            Next::Answer(_) => panic!("no redirect"),
        }
    }
    out
}

fn token() -> LoginEvent {
    LoginEvent::Exchanged(parse_json(b"{\"access_token\":\"t\"}"))
}

fn user() -> LoginEvent {
    LoginEvent::Told(parse_json(b"{\"login\":\"ann\"}"))
}

fn stored(active: bool) -> LoginEvent {
    LoginEvent::Found(Some(ApiKeyInfo {
        key: "greed_1".to_string(),
        name: "ann".to_string(),
        tier: "pro".to_string(),
        is_active: active,
    }))
}

#[test]
fn logins_find_a_key() {
    assert_eq!(
        logs_in(None, vec![token(), user(), stored(true)]),
        vec![
            "exchange {\"client_id\":\"id\",\"client_secret\":\"secret\",\"code\":\"code\"}",
            "ask t",
            "find ann",
            "https://f/dashboard?key=greed_1&login=ann"
        ]
    );
    let local = logs_in(Some("http://localhost:99/cb?x=1"), vec![token(), user(), stored(true)]);
    assert_eq!(local[3], "http://localhost:99/cb?x=1&key=greed_1&login=ann");
}

#[test]
fn first_logins_make_a_key() {
    let made = |found, key: Option<&str>| {
        logs_in(None, vec![token(), user(), found, LoginEvent::Created(key.map(|s| s.to_string()))])
    };
    assert_eq!(
        made(LoginEvent::Found(None), Some("greed_2"))[3..].to_vec(),
        vec!["create ann free", "https://f/dashboard?key=greed_2&login=ann"]
    );
    assert_eq!(made(stored(false), Some("greed_2"))[3], "create ann free");
    assert_eq!(made(LoginEvent::Found(None), None)[4], "https://f/auth/error?reason=github_error");
}

#[test]
fn logins_that_fail() {
    let error = "https://f/auth/error?reason=github_error";
    assert_eq!(logs_in(None, vec![LoginEvent::Exchanged(Err("down".to_string()))])[1], error);
    assert_eq!(logs_in(None, vec![LoginEvent::Exchanged(parse_json(b"{\"access_token\":1}"))])[1], error);
    assert_eq!(logs_in(None, vec![token(), LoginEvent::Told(parse_json(b"{}"))])[2], error);
    // a key is not handed out before GitHub told who the user is
    assert_eq!(logs_in(None, vec![stored(true), user()])[1..].to_vec(), vec!["wait", "wait"]);
}
