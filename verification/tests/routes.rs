use greed_compute::api::routes::{
    admit_checkpoint, admit_job, admit_session, attempt_status, can_report, can_report_stream, checkpoint_name, create_api_key,
    create_checkpoint, create_session,
    cuntext_fragment, delete_checkpoint, execute_code, execute_code_async, execute_code_stream, execution_timeout, file_read, get_job,
    github_login, github_oauth_callback, github_oauth_start, github_token, github_token_request, health, install_packages, job_webhook,
    key_tier, list_api_keys, list_checkpoints, list_session_jobs, read_file, restore_checkpoint, restore_of_request, revoke_api_key,
    session_status, terminate_session, token_tracking, tool_session_refusal, upload_file, uploaded, CheckpointEntry, CreateSessionRequest, FileContent,
    Restore,
};
use greed_compute::billing::PlanLimits;
use greed_compute::clock::Timestamp;
use greed_compute::db::{ApiKeyInfo, CheckpointInfo, JobRecord, KeyRecord};
use greed_compute::http::Response;
use greed_compute::ident::new_id;
use greed_compute::json::{parse_json, print_json};
use greed_compute::path::{checkpoint_dir, checkpoint_path, file_name, join_path};
use greed_compute::runtime::ExecutionResult;
use greed_compute::sandbox::{Attempt, NewSession, Session, SessionInfo, SessionManager, SessionStatus, SessionTemplate};

fn code(r: &Response) -> u16 {
    match r {
        Response::Json(c, _) => *c,
        Response::Text(c, _) => *c,
        Response::Status(c) => *c,
        Response::Redirect(_) => 307,
    }
}

fn text(r: &Response) -> String {
    match r {
        Response::Json(_, j) => print_json(j),
        Response::Text(_, s) => s.clone(),
        Response::Status(_) => String::new(),
        Response::Redirect(s) => s.clone(),
    }
}

fn at(secs: i64, nanos: u32) -> Timestamp {
    Timestamp { secs, nanos }
}

fn ran(stdout: &str) -> ExecutionResult {
    ExecutionResult {
        stdout: stdout.to_string(),
        result: Some("r".to_string()),
        error: None,
        duration_ms: 13,
        plots: vec!["p".to_string()],
        html: None,
        output_tokens: 5,
        state_tokens: 7,
    }
}

fn a_session(tracking: bool) -> Session {
    let mut m = SessionManager::new("w".to_string(), "p".to_string());
    let id = new_id();
    m.create_session_at(
        NewSession {
            session_id: id.clone(),
            workspace: "/w".to_string(),
            runtime: 1,
            ttl_secs: None,
            api_key: None,
            template: None,
            token_tracking: tracking,
        },
        at(0, 0),
    );
    match m.get_session(&id) {
        Some(s) => s,
        None => panic!("no session"),
    }
}

fn a_key(tier: &str) -> ApiKeyInfo {
    ApiKeyInfo { key: "k".to_string(), name: "n".to_string(), tier: tier.to_string(), is_active: true }
}

fn a_checkpoint() -> CheckpointInfo {
    CheckpointInfo {
        id: "c".to_string(),
        api_key: "k".to_string(),
        name: "n".to_string(),
        path: "/p".to_string(),
        created_at: "t".to_string(),
        size_bytes: 3,
    }
}

fn a_job() -> JobRecord {
    JobRecord {
        id: "j".to_string(),
        session_id: "s".to_string(),
        api_key: "k".to_string(),
        status: "done".to_string(),
        code: "1".to_string(),
        stdout: Some("o".to_string()),
        result: None,
        error: None,
        plots: vec![],
        html: None,
        webhook_url: None,
        created_at: "t".to_string(),
        started_at: None,
        finished_at: None,
        duration_ms: Some(-1),
    }
}

#[test]
fn health_of_the_service() {
    let pools = vec![("b".to_string(), 1usize), ("a".to_string(), 0usize)];
    assert_eq!(
        print_json(&health("0.1.0", 4, 3, &pools)),
        "{\"active_sessions\":4,\"status\":\"ok\",\"template_pools\":{\"a\":0,\"b\":1},\"templates\":[\"data-science\",\"machine-learning\",\"web-scraping\",\"blank\"],\"version\":\"0.1.0\",\"warm_pool\":3}"
    );
}

#[test]
fn tracking_is_configured() {
    assert!(token_tracking(None));
    assert!(token_tracking(Some("true")));
    assert!(token_tracking(Some("")));
    assert!(token_tracking(Some("00")));
    assert!(!token_tracking(Some("0")));
    assert!(!token_tracking(Some("false")));
    assert!(!token_tracking(Some("FaLsE")));
}

#[test]
fn requests_for_sessions() {
    let mut r = CreateSessionRequest {
        ttl_seconds: None,
        template: Some("ml".to_string()),
        packages: None,
        checkpoint_id: None,
        token_tracking: None,
    };
    assert_eq!(r.session_template(), SessionTemplate::MachineLearning);
    assert!(r.tracks_tokens(true) && !r.tracks_tokens(false));
    r.template = Some("gpu".to_string());
    r.token_tracking = Some(false);
    assert_eq!(r.session_template(), SessionTemplate::Blank);
    assert!(!r.tracks_tokens(true));
    r.template = None;
    assert_eq!(r.session_template(), SessionTemplate::Blank);
}

#[test]
fn restores_of_requests() {
    let id = Some("c".to_string());
    let c = a_checkpoint();
    assert!(matches!(restore_of_request(&None, true, None, None), Restore::Skipped));
    assert!(matches!(restore_of_request(&id, false, None, None), Restore::Skipped));
    assert!(matches!(restore_of_request(&id, true, None, None), Restore::Missing(x) if x == "c"));
    assert!(matches!(restore_of_request(&id, true, Some(&c), None), Restore::Skipped));
    assert!(matches!(restore_of_request(&id, true, Some(&c), Some((vec![], None))), Restore::Done(_, None)));
}

#[test]
fn sessions_are_answered() {
    let info = || SessionInfo {
        session_id: "s".to_string(),
        created_at: at(0, 0),
        expires_at: at(900, 500_000_000),
        calls_used: 0,
        workspace_path: "/w".to_string(),
        template: None,
    };
    let r = create_session(&Ok(info()), None, &Restore::Skipped);
    assert_eq!(code(&r), 201);
    assert_eq!(
        text(&r),
        "{\"created_at\":\"1970-01-01T00:00:00Z\",\"expires_at\":\"1970-01-01T00:15:00.500Z\",\"install_error\":null,\"install_output\":null,\"restore_error\":null,\"restore_vars\":null,\"session_id\":\"s\",\"workspace_path\":\"/w\"}"
    );
    let mut x = ran("out");
    x.error = Some("e".to_string());
    let r = create_session(&Ok(info()), Some(&x), &Restore::Done(vec!["v".to_string()], Some("w".to_string())));
    assert!(text(&r).contains("\"install_error\":\"e\",\"install_output\":\"out\",\"restore_error\":\"w\",\"restore_vars\":[\"v\"]"));
    let r = create_session(&Ok(info()), None, &Restore::Missing("c".to_string()));
    assert!(text(&r).contains("\"restore_error\":\"Checkpoint 'c' not found\",\"restore_vars\":null"));
    let r = create_session(&Err("no".to_string()), None, &Restore::Skipped);
    assert_eq!((code(&r), text(&r)), (500, "{\"error\":\"Failed to create session: no\"}".to_string()));
    let r = terminate_session(true);
    assert_eq!((code(&r), text(&r)), (200, "{\"deleted\":true}".to_string()));
    let r = terminate_session(false);
    assert_eq!((code(&r), text(&r)), (404, "{\"error\":\"session not found\"}".to_string()));
    let s = SessionStatus { active: true, ttl_remaining: 847, calls_used: 12, session_id: "s".to_string() };
    assert_eq!(
        text(&session_status(Some(&s))),
        "{\"active\":true,\"calls_used\":12,\"session_id\":\"s\",\"ttl_remaining\":847}"
    );
    assert_eq!(code(&session_status(None)), 404);
}

#[test]
fn executions_are_counted() {
    let mut s = a_session(true);
    assert!(can_report(&s, &ran("o")));
    let (r, used) = execute_code(&mut s, ran("o"), at(10, 0));
    assert_eq!((r.stdout.as_str(), r.result, r.duration_ms, r.plots.len()), ("o", Some("r".to_string()), 13, 1));
    let t = match r.tokens {
        Some(t) => t,
        None => panic!("no tokens"),
    };
    assert_eq!(
        (t.output_tokens, t.session_state_tokens, t.estimated_context_tokens_without_sandbox, t.cumulative_session_savings),
        (5, 7, 12, 7)
    );
    assert_eq!(used, (5, 7));
    assert_eq!((s.calls_used, s.expires_at_secs, s.cumulative_output_tokens), (1, 910, 5));
    let mut s = a_session(false);
    let (r, used) = execute_code(&mut s, ran("o"), at(10, 0));
    assert!(r.tokens.is_none());
    assert_eq!((used, s.calls_used, s.cumulative_output_tokens), ((0, 0), 1, 0));
}

#[test]
fn streams_are_counted() {
    let mut s = a_session(true);
    let (j, used) = execute_code_stream(&mut s, &ran("o"), at(10, 0));
    assert_eq!(used, (5, 7));
    assert_eq!(
        print_json(&j),
        "{\"duration_ms\":13,\"error\":null,\"html\":null,\"plots\":[\"p\"],\"result\":\"r\",\"stdout\":\"o\",\"tokens\":{\"cumulative_session_savings\":7,\"estimated_context_tokens_without_sandbox\":12,\"output_tokens\":5,\"session_state_tokens\":7},\"type\":\"result\"}"
    );
    // the stream reports after the execution was counted
    let (j, _) = execute_code_stream(&mut s, &ran("o"), at(20, 0));
    assert!(print_json(&j).contains("\"cumulative_session_savings\":28"));
    let mut s = a_session(false);
    let (j, _) = execute_code_stream(&mut s, &ran("o"), at(10, 0));
    assert!(!print_json(&j).contains("tokens"));
}

#[test]
fn streams_end_as_executions() {
    let (r, _) = execute_code(&mut a_session(true), ran("o"), at(10, 0));
    let answer = print_json(&r.to_json());
    assert_eq!(
        answer,
        "{\"duration_ms\":13,\"error\":null,\"html\":null,\"plots\":[\"p\"],\"result\":\"r\",\"stdout\":\"o\",\"tokens\":{\"cumulative_session_savings\":7,\"estimated_context_tokens_without_sandbox\":12,\"output_tokens\":5,\"session_state_tokens\":7}}"
    );
    let (j, _) = execute_code_stream(&mut a_session(true), &ran("o"), at(10, 0));
    assert_eq!(print_json(&j), answer[..answer.len() - 1].to_string() + ",\"type\":\"result\"}");
    let (r, _) = execute_code(&mut a_session(false), ran("o"), at(10, 0));
    assert_eq!(
        print_json(&r.to_json()),
        "{\"duration_ms\":13,\"error\":null,\"html\":null,\"plots\":[\"p\"],\"result\":\"r\",\"stdout\":\"o\"}"
    );
}

#[test]
fn tokens_that_cannot_be_reported() {
    let s = a_session(true);
    let mut x = ran("o");
    x.state_tokens = u64::MAX;
    assert!(!can_report(&s, &x));
    x.output_tokens = 0;
    assert!(can_report(&s, &x));
    assert!(can_report_stream(&s, &x, at(0, 0)));
    let mut twice = a_session(true);
    twice.touch_at(at(0, 0));
    assert!(can_report(&twice, &x));
    assert!(!can_report_stream(&twice, &x, at(0, 0)));
    assert!(can_report(&a_session(false), &x));
}

#[test]
fn attempts_that_do_not_run() {
    assert_eq!(attempt_status(&Attempt::<u64>::NoSession), Some(404));
    assert_eq!(attempt_status(&Attempt::<u64>::Busy), Some(423));
    assert_eq!(attempt_status(&Attempt::Ran(1u64)), None);
    let p = vec!["seaborn".to_string()];
    assert_eq!(code(&install_packages(&p, &Attempt::NoSession)), 404);
    assert_eq!(code(&install_packages(&p, &Attempt::Busy)), 423);
    assert_eq!(
        text(&install_packages(&p, &Attempt::Ran(ran("o")))),
        "{\"duration_ms\":13,\"error\":null,\"packages\":[\"seaborn\"],\"stdout\":\"o\"}"
    );
}

#[test]
fn jobs_are_answered() {
    assert!(matches!(admit_job(None, true), Err(Response::Status(401))));
    assert!(matches!(admit_job(Some("k".to_string()), false), Err(Response::Status(404))));
    assert!(matches!(admit_job(Some("k".to_string()), true), Ok(k) if k == "k"));
    assert_eq!(text(&execute_code_async("j", true)), "{\"job_id\":\"j\",\"status\":\"queued\"}");
    assert_eq!(code(&execute_code_async("j", false)), 500);
    assert_eq!(
        print_json(&job_webhook("j", &ran("o"))),
        "{\"duration_ms\":13,\"error\":null,\"html\":null,\"job_id\":\"j\",\"plots\":[\"p\"],\"result\":\"r\",\"status\":\"done\",\"stdout\":\"o\"}"
    );
    let mut x = ran("o");
    x.error = Some("e".to_string());
    assert!(print_json(&job_webhook("j", &x)).contains("\"status\":\"error\""));
    assert_eq!(code(&get_job(false, Some(&a_job()))), 401);
    assert_eq!(code(&get_job(true, None)), 404);
    let one = "{\"api_key\":\"k\",\"code\":\"1\",\"created_at\":\"t\",\"duration_ms\":-1,\"error\":null,\"finished_at\":null,\"html\":null,\"id\":\"j\",\"plots\":[],\"result\":null,\"session_id\":\"s\",\"started_at\":null,\"status\":\"done\",\"stdout\":\"o\",\"webhook_url\":null}";
    assert_eq!(text(&get_job(true, Some(&a_job()))), one);
    assert_eq!(text(&list_session_jobs(true, &vec![a_job()])), format!("{{\"jobs\":[{}]}}", one));
    assert_eq!(code(&list_session_jobs(false, &vec![])), 401);
}

#[test]
fn checkpoints_are_admitted() {
    let deny = |e: CheckpointEntry| match e {
        CheckpointEntry::Deny(r) => (code(&r), text(&r)),
        CheckpointEntry::Proceed(_) => panic!("admitted"),
    };
    let free = a_key("free");
    assert_eq!(deny(admit_checkpoint(false, true, Some(&free), 0)).0, 401);
    assert_eq!(deny(admit_checkpoint(true, false, Some(&free), 0)).0, 404);
    assert_eq!(deny(admit_checkpoint(true, true, None, 0)).0, 401);
    assert_eq!(
        deny(admit_checkpoint(true, true, Some(&free), 200 * 1024 * 1024)),
        (
            507,
            "{\"error\":\"Checkpoint storage quota exceeded\",\"fix\":\"Delete old checkpoints or upgrade your plan\",\"limit_mb\":200,\"plan\":\"free\",\"upgrade\":\"https://compute.deep-ml.com/billing\",\"used_mb\":200}"
                .to_string()
        )
    );
    match admit_checkpoint(true, true, Some(&free), 200 * 1024 * 1024 - 1) {
        CheckpointEntry::Proceed(l) => assert_eq!(l, PlanLimits::for_tier("free")),
        CheckpointEntry::Deny(_) => panic!("denied"),
    }
}

#[test]
fn checkpoints_are_answered() {
    let l = PlanLimits::for_tier("pro");
    let made = |a: Attempt<(u64, Option<String>)>, stored: bool| {
        let r = create_checkpoint("c", "n", &a, stored, l, 1024 * 1024);
        (code(&r), text(&r))
    };
    assert_eq!(made(Attempt::NoSession, true).0, 404);
    assert_eq!(made(Attempt::Busy, true).0, 423);
    assert_eq!(made(Attempt::Ran((0, Some("e".to_string()))), true), (200, "{\"error\":\"e\"}".to_string()));
    assert_eq!(made(Attempt::Ran((5, None)), false).0, 500);
    assert_eq!(
        made(Attempt::Ran((1024 * 1024, None)), true).1,
        "{\"checkpoint_id\":\"c\",\"expires_in_days\":30,\"name\":\"n\",\"size_bytes\":1048576,\"storage_limit_mb\":5120,\"storage_used_mb\":2}"
    );
    let r = create_checkpoint("c", "n", &Attempt::Ran((u64::MAX, None)), true, l, u64::MAX);
    assert!(text(&r).contains("\"storage_used_mb\":35184372088831"));
    assert_eq!(checkpoint_name(&Some("mine".to_string()), "0123456789"), "mine");
    assert_eq!(checkpoint_name(&None, "0123456789"), "checkpoint-01234567");
    assert_eq!(checkpoint_dir(None), "/tmp/greed-compute/checkpoints");
    assert_eq!(checkpoint_path(&checkpoint_dir(Some("/d".to_string())), "c"), "/d/c.dill");
}

#[test]
fn restores_are_answered() {
    let done = || Attempt::Ran((vec!["x".to_string()], None));
    assert_eq!(code(&restore_checkpoint(false, true, true, &done())), 401);
    assert_eq!(code(&restore_checkpoint(true, false, true, &done())), 404);
    assert_eq!(code(&restore_checkpoint(true, true, false, &done())), 404);
    assert_eq!(code(&restore_checkpoint(true, true, true, &Attempt::Busy)), 423);
    assert_eq!(
        text(&restore_checkpoint(true, true, true, &done())),
        "{\"error\":null,\"restored\":true,\"vars\":[\"x\"]}"
    );
    assert_eq!(
        text(&restore_checkpoint(true, true, true, &Attempt::Ran((vec![], Some("e".to_string()))))),
        "{\"error\":\"e\",\"restored\":false,\"vars\":[]}"
    );
    assert_eq!(code(&list_checkpoints(false, &vec![])), 401);
    assert_eq!(
        text(&list_checkpoints(true, &vec![a_checkpoint()])),
        "{\"checkpoints\":[{\"api_key\":\"k\",\"created_at\":\"t\",\"id\":\"c\",\"name\":\"n\",\"path\":\"/p\",\"size_bytes\":3}]}"
    );
    assert_eq!(code(&delete_checkpoint(false, true, true)), 401);
    assert_eq!(code(&delete_checkpoint(true, false, true)), 404);
    assert_eq!(code(&delete_checkpoint(true, true, false)), 404);
    assert_eq!(text(&delete_checkpoint(true, true, true)), "{\"deleted\":true}");
}

#[test]
fn file_names_stay_inside() {
    let n = |s: &str| file_name(s);
    assert_eq!(n("a.csv"), Some("a.csv".to_string()));
    assert_eq!(n("/etc/passwd"), Some("passwd".to_string()));
    assert_eq!(n("../../x"), Some("x".to_string()));
    assert_eq!(n("x/"), Some("x".to_string()));
    assert_eq!(n("x/./"), Some("x".to_string()));
    assert_eq!(n("x//."), Some("x".to_string()));
    assert_eq!(n("x/.."), None);
    assert_eq!(n(".."), None);
    assert_eq!(n("."), None);
    assert_eq!(n("/"), None);
    assert_eq!(n(""), None);
    assert_eq!(n("..."), Some("...".to_string()));
    for s in ["a", "a/b", "a/..", "./a", "a/.", "/", "..", "x//y//", "...", "a/../.."] {
        let std_name = std::path::Path::new(s).file_name().and_then(|f| f.to_str()).map(|f| f.to_string());
        assert_eq!(n(s), std_name);
    }
    for (a, b) in [("/t", "x"), ("/t/", "x"), ("", "x"), ("/t", "/x"), ("t", "")] {
        assert_eq!(join_path(a, b), std::path::Path::new(a).join(b).to_string_lossy());
    }
}

#[test]
fn files_are_uploaded_and_read() {
    assert!(matches!(upload_file(None, "a", "aGk="), Err(Response::Status(404))));
    assert!(matches!(upload_file(Some("/w"), "..", "aGk="), Err(Response::Status(400))));
    assert!(matches!(upload_file(Some("/w"), "a", "aGk"), Err(Response::Status(400))));
    assert!(matches!(upload_file(Some("/w"), "a", "a*k="), Err(Response::Status(400))));
    let u = match upload_file(Some("/w"), "../d/a.txt", "aGk=") {
        Ok(u) => u,
        Err(_) => panic!("refused"),
    };
    assert_eq!((u.name.as_str(), u.path.as_str(), u.content.as_slice()), ("a.txt", "/w/a.txt", "hi".as_bytes()));
    assert_eq!(text(&uploaded(&u, true)), "{\"size_bytes\":2,\"uploaded\":\"a.txt\"}");
    assert_eq!(code(&uploaded(&u, false)), 500);
    assert!(matches!(read_file(None, "a"), Err(Response::Status(404))));
    assert!(matches!(read_file(Some("/w"), ""), Err(Response::Status(400))));
    match read_file(Some("/w"), "../d/a.txt") {
        Ok((name, path)) => assert_eq!((name, path), (u.name.clone(), u.path.clone())),
        Err(_) => panic!("refused"),
    }
    assert_eq!(code(&file_read("a.txt", &FileContent::Missing)), 404);
    assert_eq!(code(&file_read("a.txt", &FileContent::Unreadable)), 500);
    assert_eq!(
        text(&file_read("a.txt", &FileContent::Bytes(u.content))),
        "{\"content_base64\":\"aGk=\",\"filename\":\"a.txt\",\"size_bytes\":2}"
    );
}

#[test]
fn keys_are_answered() {
    assert_eq!(key_tier(None), "free");
    assert_eq!(key_tier(Some("pro".to_string())), "pro");
    let r = create_api_key("greed_1", "n", "pro", "t0", true);
    assert_eq!(
        (code(&r), text(&r)),
        (201, "{\"created_at\":\"t0\",\"key\":\"greed_1\",\"name\":\"n\",\"tier\":\"pro\"}".to_string())
    );
    assert_eq!(code(&create_api_key("greed_1", "n", "pro", "t0", false)), 500);
    assert_eq!(
        print_json(&list_api_keys(&vec![KeyRecord { info: a_key("pro"), created_at: "t0".to_string() }])),
        "[{\"created_at\":\"t0\",\"is_active\":true,\"key\":\"k\",\"name\":\"n\",\"tier\":\"pro\"}]"
    );
    let r = revoke_api_key("k", 1);
    assert_eq!((code(&r), text(&r)), (200, "{\"key\":\"k\",\"revoked\":true}".to_string()));
    let r = revoke_api_key("k", 0);
    assert_eq!((code(&r), text(&r)), (404, "{\"error\":\"key not found\"}".to_string()));
}

#[test]
fn fragments_that_are_served() {
    for name in ["exec", "checkpoint", "swarm", "workspace", "billing", "errors"] {
        assert!(cuntext_fragment(&format!("{}.cuntext", name)));
    }
    for name in ["index.cuntext", "exec", "../exec.cuntext", "a/exec.cuntext", "exec.cuntext/", "", "..cuntext"] {
        assert!(!cuntext_fragment(name));
    }
}

#[test]
fn github_logins() {
    assert_eq!(
        text(&github_oauth_start("id", None, None)),
        "https://github.com/login/oauth/authorize?client_id=id&redirect_uri=http://localhost:8080/v1/auth/github/callback&scope=read:user&state="
    );
    assert!(text(&github_oauth_start("id", Some("https://b"), Some("http://localhost:9"))).ends_with(
        "&redirect_uri=https://b/v1/auth/github/callback&scope=read:user&state=http://localhost:9"
    ));
    assert_eq!(
        print_json(&github_token_request("i", "s", "c")),
        "{\"client_id\":\"i\",\"client_secret\":\"s\",\"code\":\"c\"}"
    );
    let login = || Some(("ann".to_string(), "greed_1".to_string()));
    assert_eq!(text(&github_oauth_callback(Some("https://f"), None, None)), "https://f/auth/error?reason=github_error");
    assert_eq!(
        text(&github_oauth_callback(None, None, login())),
        "http://localhost:3000/dashboard?key=greed_1&login=ann"
    );
    assert_eq!(
        text(&github_oauth_callback(Some("https://f"), Some("http://localhost:9/cb?x=1"), login())),
        "http://localhost:9/cb?x=1&key=greed_1&login=ann"
    );
    assert_eq!(
        text(&github_oauth_callback(Some("https://f"), Some("https://elsewhere"), login())),
        "https://f/dashboard?key=greed_1&login=ann"
    );
}

#[test]
fn github_replies() {
    let read = |s: &str| match parse_json(s.as_bytes()) {
        Ok(j) => (github_token(&j), github_login(&j)),
        Err(e) => panic!("{}", e),
    };
    assert_eq!(read("{\"access_token\":\"t\"}"), (Some("t".to_string()), None));
    assert_eq!(read("{\"login\":\"ann\",\"access_token\":1}"), (None, Some("ann".to_string())));
    assert_eq!(read("[]"), (None, None));
}

#[test]
fn sessions_are_limited_by_plan() {
    assert!(admit_session(None, 1_000).is_none());
    for (tier, limit) in [("free", 2), ("hobby", 2), ("pro", 10), ("builder", 10), ("scale", 100), ("gold", 2)] {
        let key = a_key(tier);
        assert!(admit_session(Some(&key), limit - 1).is_none());
        assert!(admit_session(Some(&key), limit).is_some());
        assert!(admit_session(Some(&key), limit + 1).is_some());
    }
    assert_eq!(tool_session_refusal(Some(&a_key("free")), 1), None);
    assert_eq!(tool_session_refusal(Some(&a_key("free")), 2), Some("Concurrent session limit reached".to_string()));
    let r = admit_session(Some(&a_key("pro")), 10).unwrap();
    assert_eq!(
        (code(&r), text(&r)),
        (
            429,
            "{\"error\":\"Concurrent session limit reached\",\"plan\":\"builder\",\"sessions_active\":10,\"sessions_limit\":10,\"upgrade\":\"https://compute.deep-ml.com/dashboard\"}"
                .to_string()
        )
    );
}

#[test]
fn executions_are_limited_by_plan() {
    assert_eq!(execution_timeout(None), 35);
    assert_eq!(execution_timeout(Some(&a_key("free"))), 35);
    assert_eq!(execution_timeout(Some(&a_key("builder"))), 125);
    assert_eq!(execution_timeout(Some(&a_key("enterprise"))), 605);
}
