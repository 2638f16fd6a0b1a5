use greed_compute::api::checkout::{checkout_begin, checkout_next, CheckoutEvent, CheckoutPlan, CheckoutWork};
use greed_compute::billing::StripeClient;
use greed_compute::db::ApiKeyInfo;
use greed_compute::http::{Next, Response};
use greed_compute::json::{parse_json, print_json};

fn checks_out(events: Vec<CheckoutEvent>) -> Vec<String> {
    let plan = CheckoutPlan {
        stripe: StripeClient::new("sk".to_string()),
        api_key: "greed_1".to_string(),
        price_id: "price".to_string(),
        plan: "pro".to_string(),
        email: Some("a@b.c".to_string()),
        success_url: "yes".to_string(),
        cancel_url: "no".to_string(),
    };
    let show = |w: &CheckoutWork| match w {
        CheckoutWork::Wait => "wait".to_string(),
        CheckoutWork::Find => "find".to_string(),
        CheckoutWork::Identify => "identify".to_string(),
        CheckoutWork::Send(r) => {
            let form: Vec<String> = r.form.iter().map(|(k, v)| format!("{}={}", k, v)).collect();
            format!("{} {} {}", r.url, r.secret_key, form.join("&"))
        }
    };
    let (mut s, work) = checkout_begin();
    let mut out = vec![show(&work)];
    for e in events {
        match checkout_next(&plan, s, e) {
            Next::Do(next, work) => {
                s = next;
                out.push(show(&work));
            }
            Next::Answer(r) => {
                out.push(match r {
                    Response::Json(c, j) => format!("{} {}", c, print_json(&j)),
                    Response::Status(c) => format!("{}", c),
                    _ => panic!("another answer"),
                });
                return out;
            }
        }
    }
    out
}

fn key() -> ApiKeyInfo {
    ApiKeyInfo { key: "greed_1".to_string(), name: "ann".to_string(), tier: "free".to_string(), is_active: true }
}

const OPENING: &str = "https://api.stripe.com/v1/checkout/sessions sk customer=cus&mode=subscription&line_items[0][price]=price&line_items[0][quantity]=1&success_url=yes&cancel_url=no&metadata[greed_api_key]=greed_1&subscription_data[metadata][greed_api_key]=greed_1";

#[test]
fn customers_are_used_again() {
    let all = checks_out(vec![
        CheckoutEvent::Found(Some("cus".to_string())),
        CheckoutEvent::Replied(parse_json(b"{\"url\":\"u\"}")),
    ]);
    assert_eq!(all, vec!["find", OPENING, "200 {\"checkout_url\":\"u\",\"plan\":\"pro\"}"]);
}

#[test]
fn customers_are_created_once() {
    let all = checks_out(vec![
        CheckoutEvent::Found(None),
        CheckoutEvent::Identified(Some(key())),
        CheckoutEvent::Replied(parse_json(b"{\"id\":\"cus\"}")),
        CheckoutEvent::Replied(parse_json(b"{}")),
    ]);
    assert_eq!(
        all,
        vec![
            "find",
            "identify",
            "https://api.stripe.com/v1/customers sk metadata[greed_api_key]=greed_1&email=a@b.c&name=ann",
            OPENING,
            "500"
        ]
    );
}

#[test]
fn checkouts_that_fail() {
    let unknown = checks_out(vec![CheckoutEvent::Found(None), CheckoutEvent::Identified(None)]);
    assert_eq!(unknown, vec!["find", "identify", "401"]);
    let refused = checks_out(vec![
        CheckoutEvent::Found(None),
        CheckoutEvent::Identified(Some(key())),
        CheckoutEvent::Replied(Err("down".to_string())),
    ]);
    assert_eq!(refused[3], "500");
    assert_eq!(checks_out(vec![CheckoutEvent::Identified(Some(key()))]), vec!["find", "wait"]);
}
