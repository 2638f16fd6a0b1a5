use greed_compute::api::billing::{
    admit_checkout, admit_portal, cancel_page, create_checkout, create_portal, get_usage, price_to_plan,
    receive_webhook, return_page, stripe_webhook, success_page, WebhookAction,
};
use greed_compute::billing::{credits_for, PlanLimits, StripeClient};
use greed_compute::db::ApiKeyInfo;
use greed_compute::http::Response;
use greed_compute::json::{parse_json, print_json, Json};
use hmac::Mac;

fn json(text: &str) -> Json {
    match parse_json(text.as_bytes()) {
        Ok(j) => j,
        Err(e) => panic!("{}", e),
    }
}

fn key(tier: &str) -> ApiKeyInfo {
    ApiKeyInfo { key: "greed_1".to_string(), name: "ann".to_string(), tier: tier.to_string(), is_active: true }
}

fn status(r: &Response) -> u16 {
    match r {
        Response::Json(c, _) => *c,
        Response::Text(c, _) => *c,
        Response::Status(c) => *c,
        Response::Redirect(_) => 307,
    }
}

fn body(r: &Response) -> String {
    match r {
        Response::Json(_, j) => print_json(j),
        Response::Text(_, s) => s.clone(),
        Response::Status(_) => String::new(),
        Response::Redirect(s) => s.clone(),
    }
}

fn sign(secret: &str, message: &[u8]) -> String {
    let mut mac = hmac::Hmac::<sha2::Sha256>::new_from_slice(secret.as_bytes()).unwrap();
    mac.update(message);
    hex::encode(mac.finalize().into_bytes())
}

#[test]
fn limits_of_each_tier() {
    for tier in ["free", "hobby", "gold", ""] {
        let l = PlanLimits::for_tier(tier);
        assert_eq!(l.requests_per_minute, 60);
        assert_eq!(l.credits_per_day, 50);
        assert_eq!(l.concurrent_sessions, 2);
        assert_eq!(l.max_execution_secs, 30);
        assert_eq!(l.checkpoint_storage_bytes, 200 * 1024 * 1024);
        assert_eq!(l.checkpoint_retention_days, 3);
    }
    for tier in ["pro", "builder"] {
        let l = PlanLimits::for_tier(tier);
        assert_eq!(l.requests_per_minute, 300);
        assert_eq!(l.credits_per_day, 500);
        assert_eq!(l.concurrent_sessions, 10);
        assert_eq!(l.max_execution_secs, 120);
        assert_eq!(l.checkpoint_storage_bytes, 5 * 1024 * 1024 * 1024);
        assert_eq!(l.checkpoint_retention_days, 30);
    }
    for tier in ["enterprise", "scale"] {
        let l = PlanLimits::for_tier(tier);
        assert_eq!(l.requests_per_minute, 2000);
        assert!(l.is_unlimited(l.credits_per_day));
        assert_eq!(l.concurrent_sessions, 100);
        assert_eq!(l.max_execution_secs, 600);
        assert_eq!(l.checkpoint_storage_bytes, 50 * 1024 * 1024 * 1024);
        assert_eq!(l.checkpoint_retention_days, 90);
    }
    assert!(!PlanLimits::for_tier("free").is_unlimited(50));
}

#[test]
fn tiers_are_shown_by_their_new_names() {
    assert_eq!(PlanLimits::tier_display("free"), "hobby");
    assert_eq!(PlanLimits::tier_display("pro"), "builder");
    assert_eq!(PlanLimits::tier_display("enterprise"), "scale");
    assert_eq!(PlanLimits::tier_display("scale"), "scale");
    assert_eq!(PlanLimits::tier_display("unknown"), "hobby");
    for tier in ["free", "pro", "enterprise", "hobby", "builder", "scale", "x"] {
        assert_eq!(PlanLimits::for_tier(tier), PlanLimits::for_tier(PlanLimits::tier_display(tier)));
    }
}

#[test]
fn one_credit_is_one_second() {
    assert_eq!(credits_for(0), 0);
    assert_eq!(credits_for(-5), 0);
    assert_eq!(credits_for(1), 1);
    assert_eq!(credits_for(100), 1);
    assert_eq!(credits_for(1000), 1);
    assert_eq!(credits_for(1001), 2);
    assert_eq!(credits_for(50_000), 50);
    assert_eq!(credits_for(i64::MAX), u32::MAX);
}

#[test]
fn stripe_requests() {
    let c = StripeClient::new("sk_x".to_string());
    let r = c.create_customer("greed_1", Some("a@b.c"), Some("Ann"));
    assert_eq!(r.url, "https://api.stripe.com/v1/customers");
    assert_eq!(r.secret_key, "sk_x");
    assert_eq!(
        r.form,
        vec![
            ("metadata[greed_api_key]".to_string(), "greed_1".to_string()),
            ("email".to_string(), "a@b.c".to_string()),
            ("name".to_string(), "Ann".to_string()),
        ]
    );
    assert_eq!(c.create_customer("k", None, None).form.len(), 1);
    let r = c.create_checkout_session("cus_1", "price_1", "https://s", "https://c", "greed_1");
    assert_eq!(r.url, "https://api.stripe.com/v1/checkout/sessions");
    assert_eq!(r.form[0], ("customer".to_string(), "cus_1".to_string()));
    assert_eq!(r.form[1], ("mode".to_string(), "subscription".to_string()));
    assert_eq!(r.form[2], ("line_items[0][price]".to_string(), "price_1".to_string()));
    assert_eq!(r.form[7], ("subscription_data[metadata][greed_api_key]".to_string(), "greed_1".to_string()));
    assert_eq!(r.form.len(), 8);
    let r = c.create_portal_session("cus_1", "https://r");
    assert_eq!(r.url, "https://api.stripe.com/v1/billing_portal/sessions");
    assert_eq!(
        r.form,
        vec![("customer".to_string(), "cus_1".to_string()), ("return_url".to_string(), "https://r".to_string())]
    );
}

#[test]
fn stripe_replies() {
    assert_eq!(StripeClient::customer_reply(&json("{\"id\":\"cus_9\"}")), Ok("cus_9".to_string()));
    assert_eq!(StripeClient::session_reply(&json("{\"url\":\"https://x\"}")), Ok("https://x".to_string()));
    assert_eq!(
        StripeClient::customer_reply(&json("{ \"error\" : { \"code\" : 7 } }")),
        Err("Stripe error: {\"error\":{\"code\":7}}".to_string())
    );
    assert_eq!(StripeClient::session_reply(&json("{\"url\":3}")), Err("Stripe error: {\"url\":3}".to_string()));
}

#[test]
fn signed_webhook_is_taken() {
    let payload = "{\"type\":\"x\",\"n\":1}";
    let sig = sign("whsec", format!("1700.{}", payload).as_bytes());
    let header = format!("t=1700,v1={}", sig);
    match StripeClient::verify_webhook(payload.as_bytes(), &header, "whsec") {
        Ok(j) => assert_eq!(print_json(&j), "{\"n\":1,\"type\":\"x\"}"),
        Err(e) => panic!("{}", e),
    }
    // the last of several fields counts
    let header = format!("t=1,v1=aa,t=1700,v0=zz,v1={}", sig);
    assert!(StripeClient::verify_webhook(payload.as_bytes(), &header, "whsec").is_ok());
}

#[test]
fn forged_webhook_is_refused() {
    let payload = b"{}";
    let sig = sign("whsec", b"1700.{}");
    let bad = |h: &str, s: &str| match StripeClient::verify_webhook(payload, h, s) {
        Ok(_) => panic!("taken"),
        Err(e) => e,
    };
    assert_eq!(bad("", "whsec"), "Invalid Stripe-Signature header");
    assert_eq!(bad("t=1700", "whsec"), "Invalid Stripe-Signature header");
    assert_eq!(bad("v1=00", "whsec"), "Invalid Stripe-Signature header");
    assert_eq!(bad("t=,v1=00", "whsec"), "Invalid Stripe-Signature header");
    assert_eq!(bad(&format!("t=1701,v1={}", sig), "whsec"), "Webhook signature mismatch");
    assert_eq!(bad(&format!("t=1700,v1={}", sig), "other"), "Webhook signature mismatch");
    assert_eq!(bad(&format!("t=1700,v1={}", sig.to_uppercase()), "whsec"), "Webhook signature mismatch");
    assert_eq!(bad(&format!("t=1700, v1={}", sig), "whsec"), "Invalid Stripe-Signature header");
}

#[test]
fn signed_webhook_that_is_no_json() {
    let sig = sign("s", b"1.nope");
    let header = format!("t=1,v1={}", sig);
    match StripeClient::verify_webhook(b"nope", &header, "s") {
        Ok(_) => panic!("taken"),
        Err(e) => assert_eq!(e, "expected ident at line 1 column 2"),
    }
    // bytes that are no UTF-8 are signed as the empty text
    let sig = sign("s", b"1.");
    let header = format!("t=1,v1={}", sig);
    match StripeClient::verify_webhook(&[0xff, 0xfe], &header, "s") {
        Ok(_) => panic!("taken"),
        Err(e) => assert_ne!(e, "Webhook signature mismatch"),
    }
}

#[test]
fn prices_buy_plans() {
    assert_eq!(price_to_plan("p1", "p1", "p2"), Some("pro"));
    assert_eq!(price_to_plan("p2", "p1", "p2"), Some("enterprise"));
    assert_eq!(price_to_plan("p3", "p1", "p2"), None);
    assert_eq!(price_to_plan("", "", ""), None);
}

#[test]
fn checkout_is_admitted() {
    let k = || Some("greed_1".to_string());
    let p = || Some("p1".to_string());
    let e = || Some("p2".to_string());
    assert_eq!(status(&admit_checkout(None, "pro", true, p(), e()).unwrap_err_response()), 401);
    let r = admit_checkout(k(), "gold", true, p(), e()).unwrap_err_response();
    assert_eq!(status(&r), 200);
    assert_eq!(body(&r), "{\"error\":\"plan must be 'builder' or 'scale'\"}");
    assert_eq!(status(&admit_checkout(k(), "pro", false, p(), e()).unwrap_err_response()), 503);
    assert_eq!(status(&admit_checkout(k(), "pro", true, None, e()).unwrap_err_response()), 503);
    for plan in ["pro", "builder"] {
        match admit_checkout(k(), plan, true, p(), e()) {
            Ok((key, price)) => assert_eq!((key.as_str(), price.as_str()), ("greed_1", "p1")),
            Err(_) => panic!("refused"),
        }
    }
    for plan in ["scale", "enterprise"] {
        match admit_checkout(k(), plan, true, None, e()) {
            Ok((_, price)) => assert_eq!(price, "p2"),
            Err(_) => panic!("refused"),
        }
    }
}

trait Refused {
    fn unwrap_err_response(self) -> Response;
}

impl<T> Refused for Result<T, Response> {
    fn unwrap_err_response(self) -> Response {
        match self {
            Ok(_) => panic!("admitted"),
            Err(r) => r,
        }
    }
}

#[test]
fn pages_of_a_checkout() {
    assert_eq!(success_page(Some("u".to_string()), Some("b")), "u");
    assert_eq!(success_page(None, Some("b")), "b/billing/success");
    assert_eq!(cancel_page(None, None), "http://localhost:8080/billing/cancel");
    assert_eq!(return_page(None, Some("b")), "b/billing");
    assert_eq!(body(&create_checkout(Some("u"), "pro")), "{\"checkout_url\":\"u\",\"plan\":\"pro\"}");
    assert_eq!(status(&create_checkout(None, "pro")), 500);
    assert_eq!(body(&create_portal(Some("u"))), "{\"portal_url\":\"u\"}");
    assert_eq!(status(&create_portal(None)), 500);
}

#[test]
fn portal_is_admitted() {
    assert_eq!(status(&admit_portal(false, true, None).unwrap_err_response()), 401);
    assert_eq!(status(&admit_portal(true, false, None).unwrap_err_response()), 503);
    assert_eq!(status(&admit_portal(true, true, None).unwrap_err_response()), 404);
    assert!(matches!(admit_portal(true, true, Some("c".to_string())), Ok(c) if c == "c"));
}

fn subscription(kind: &str, price: &str) -> Json {
    json(&format!(
        "{{\"type\":\"{}\",\"data\":{{\"object\":{{\"id\":\"sub_1\",\"customer\":\"cus_1\",\"metadata\":{{\"greed_api_key\":\"greed_1\"}},\"items\":{{\"data\":[{{\"price\":{{\"id\":\"{}\"}}}}]}}}}}}}}",
        kind, price
    ))
}

fn stored(a: WebhookAction) -> (String, String, String, String, String) {
    match a {
        WebhookAction::Store { api_key, customer_id, subscription_id, plan, status } => {
            (api_key, customer_id, subscription_id, plan, status)
        }
        _ => panic!("nothing stored"),
    }
}

#[test]
fn subscriptions_change_plans() {
    let s = stored(stripe_webhook(&subscription("customer.subscription.created", "p1"), "p1", "p2"));
    assert_eq!(
        s,
        ("greed_1".to_string(), "cus_1".to_string(), "sub_1".to_string(), "pro".to_string(), "active".to_string())
    );
    let s = stored(stripe_webhook(&subscription("customer.subscription.updated", "p2"), "p1", "p2"));
    assert_eq!(s.3, "enterprise");
    let s = stored(stripe_webhook(&subscription("customer.subscription.updated", "p7"), "p1", "p2"));
    assert_eq!(s.3, "free");
    let s = stored(stripe_webhook(&subscription("customer.subscription.deleted", "p1"), "p1", "p2"));
    assert_eq!((s.3.as_str(), s.4.as_str()), ("free", "cancelled"));
}

#[test]
fn other_events_change_nothing() {
    assert!(matches!(stripe_webhook(&subscription("charge.refunded", "p1"), "p1", "p2"), WebhookAction::Nothing));
    assert!(matches!(stripe_webhook(&Json::Null, "p1", "p2"), WebhookAction::Nothing));
    let no_key = json("{\"type\":\"customer.subscription.created\",\"data\":{\"object\":{\"customer\":\"c\"}}}");
    assert!(matches!(stripe_webhook(&no_key, "p1", "p2"), WebhookAction::Nothing));
    let no_object = json("{\"type\":\"customer.subscription.created\"}");
    assert!(matches!(stripe_webhook(&no_object, "p1", "p2"), WebhookAction::Nothing));
    let failed = json("{\"type\":\"invoice.payment_failed\",\"data\":{\"object\":{\"customer\":\"c9\"}}}");
    assert!(matches!(stripe_webhook(&failed, "p1", "p2"), WebhookAction::PaymentFailed(c) if c == "c9"));
}

#[test]
fn webhooks_are_received() {
    match receive_webhook(b"{\"a\":1}", "", "") {
        Ok(j) => assert_eq!(print_json(&j), "{\"a\":1}"),
        Err(_) => panic!("refused"),
    }
    assert!(matches!(receive_webhook(b"nope", "", ""), Ok(Json::Null)));
    assert!(matches!(receive_webhook(b"{}", "t=1,v1=2", "s"), Err(Response::Status(400))));
    let header = format!("t=1,v1={}", sign("s", b"1.{}"));
    assert!(receive_webhook(b"{}", &header, "s").is_ok());
}

#[test]
fn usage_of_a_hobby_key() {
    let r = get_usage(true, Some(&key("free")), "2026-04-09", None, 12, 0);
    assert_eq!(status(&r), 200);
    assert_eq!(
        body(&r),
        "{\"billing_status\":\"none\",\"credits\":{\"limit\":50,\"remaining\":38,\"resets\":\"midnight UTC\",\"used\":12},\"date\":\"2026-04-09\",\"limits\":{\"concurrent_sessions\":2,\"max_execution_secs\":30,\"requests_per_minute\":60},\"plan\":\"hobby\",\"storage\":{\"limit_mb\":200,\"retention_days\":3,\"used_mb\":0}}"
    );
    assert_eq!(status(&get_usage(false, Some(&key("free")), "d", None, 0, 0)), 401);
    assert_eq!(status(&get_usage(true, None, "d", None, 0, 0)), 401);
}

#[test]
fn usage_of_other_keys() {
    let r = get_usage(true, Some(&key("enterprise")), "d", Some("active"), 700, 3 * 1024 * 1024 + 5);
    assert!(body(&r).contains("\"credits\":{\"limit\":null,\"remaining\":null,\"resets\":\"midnight UTC\",\"used\":700}"));
    assert!(body(&r).contains("\"used_mb\":3"));
    assert!(body(&r).contains("\"billing_status\":\"active\""));
    let r = get_usage(true, Some(&key("pro")), "d", None, 900, 0);
    assert!(body(&r).contains("\"remaining\":0"));
    assert!(body(&r).contains("\"plan\":\"builder\""));
}
