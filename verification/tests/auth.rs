use greed_compute::api::auth::{enter, identify, request_key, spend, Entry, RateLimiter, Verdict, WINDOW_NS};
use greed_compute::db::ApiKeyInfo;
use greed_compute::http::Response;
use greed_compute::json::print_json;

fn info(tier: &str) -> ApiKeyInfo {
    ApiKeyInfo { key: "k".to_string(), name: "n".to_string(), tier: tier.to_string(), is_active: true }
}

fn shown(r: &Response) -> (u16, String) {
    match r {
        Response::Json(c, j) => (*c, print_json(j)),
        _ => panic!("no JSON"),
    }
}

fn denied(e: Entry) -> (u16, String) {
    match e {
        Entry::Deny(r) => shown(&r),
        _ => panic!("not denied"),
    }
}

#[test]
fn public_paths_pass() {
    for path in [
        "/v1/health",
        "/v1/billing/webhook",
        "/v1/cuntext/index.cuntext",
        "/v1/cuntext/fragments/exec.cuntext",
        "/v1/llms.cuntext",
        "/v1/auth/github",
        "/v1/auth/github/callback",
    ] {
        assert!(matches!(enter(path, "", None, None), Entry::Pass));
    }
}

#[test]
fn admin_paths_need_the_admin_key() {
    assert_eq!(
        denied(enter("/v1/admin/keys", "", Some(""), None)),
        (503, "{\"error\":\"Admin access not configured\"}".to_string())
    );
    assert_eq!(
        denied(enter("/v1/admin/keys", "s", None, Some("k".to_string()))),
        (403, "{\"error\":\"Invalid admin key\"}".to_string())
    );
    assert_eq!(denied(enter("/v1/admin/keys", "s", Some("t"), None)).0, 403);
    assert!(matches!(enter("/v1/admin/keys", "s", Some("s"), None), Entry::Pass));
}

#[test]
fn other_paths_need_a_key() {
    assert_eq!(
        denied(enter("/v1/session/create", "s", Some("s"), None)),
        (401, "{\"error\":\"Missing x-api-key header\"}".to_string())
    );
    assert_eq!(denied(enter("/v1/healthz", "", None, None)).0, 401);
    assert_eq!(denied(enter("/v1/admin", "s", Some("s"), None)).0, 401);
    assert!(matches!(enter("/v1/swarm", "", None, Some("k".to_string())), Entry::Key(k) if k == "k"));
}

#[test]
fn keys_that_requests_carry() {
    let h = || Some("h".to_string());
    let q = || Some("q".to_string());
    assert_eq!(request_key("/v1/mcp", h(), q()), h());
    assert_eq!(request_key("/v1/mcp", None, q()), q());
    assert_eq!(request_key("/v1/usage", None, q()), None);
    assert_eq!(request_key("/v1/usage", h(), None), h());
}

#[test]
fn window_slides() {
    let mut l = RateLimiter::new();
    assert!(l.check("k", 2, 0));
    assert!(l.check("k", 2, 10));
    assert!(!l.check("k", 2, 20));
    // another key has a window of its own
    assert!(l.check("j", 2, 20));
    // a request is stale only after more than a window
    assert!(!l.check("k", 2, WINDOW_NS));
    assert!(l.check("k", 2, WINDOW_NS + 1));
    assert!(!l.check("k", 2, WINDOW_NS + 10));
    assert!(l.check("k", 2, WINDOW_NS + 11));
    assert!(!l.check("k", 2, WINDOW_NS + 12));
}

#[test]
fn window_holds_at_most_the_limit() {
    let mut l = RateLimiter::new();
    let mut admitted: Vec<u64> = Vec::new();
    let mut now: u64 = 0;
    for i in 0..400u64 {
        now += (i * 791_900_000) % 3_000_000_000;
        if l.check("k", 5, now) {
            admitted.push(now);
        }
    }
    assert!(admitted.len() > 5);
    for i in 0..admitted.len() - 5 {
        assert!(admitted[i + 5] - admitted[i] > WINDOW_NS);
    }
}

#[test]
fn no_request_under_a_limit_of_none() {
    let mut l = RateLimiter::new();
    assert!(!l.check("k", 0, 5));
    assert!(l.check("k", 1, 5));
}

#[test]
fn unknown_keys_are_refused() {
    let mut l = RateLimiter::new();
    match identify(&mut l, "/v1/usage", "k", None, 0) {
        Verdict::Deny(r) => assert_eq!(shown(&r), (401, "{\"error\":\"Invalid API key\"}".to_string())),
        _ => panic!("passed"),
    }
}

#[test]
fn rate_limit_of_a_plan() {
    let mut l = RateLimiter::new();
    for i in 0..60u64 {
        assert!(matches!(identify(&mut l, "/v1/usage", "k", Some(&info("free")), i), Verdict::Pass));
    }
    match identify(&mut l, "/v1/usage", "k", Some(&info("free")), 60) {
        Verdict::Deny(r) => assert_eq!(
            shown(&r),
            (
                429,
                "{\"error\":\"Rate limit exceeded\",\"limit\":60,\"plan\":\"free\",\"upgrade\":\"https://compute.deep-ml.com/billing\",\"window\":\"60s\"}"
                    .to_string()
            )
        ),
        _ => panic!("passed"),
    }
    // the same requests fit a greater plan
    assert!(matches!(identify(&mut l, "/v1/usage", "k", Some(&info("pro")), 61), Verdict::Pass));
}

#[test]
fn credits_are_asked_for_where_they_are_spent() {
    let mut l = RateLimiter::new();
    for path in
        ["/v1/session/1/execute", "/v1/session/1/execute/async", "/v1/session/1/execute/stream", "/v1/swarm", "/v1/workspaces/2/execute"]
    {
        assert!(matches!(identify(&mut l, path, "k", Some(&info("free")), 0), Verdict::Spend));
        assert!(matches!(identify(&mut l, path, "s", Some(&info("scale")), 0), Verdict::Pass));
    }
    for path in ["/v1/swarm/1", "/v1/session/create", "/v1/session/1/executed"] {
        assert!(matches!(identify(&mut l, path, "k", Some(&info("free")), 0), Verdict::Pass));
    }
}

#[test]
fn credits_run_out() {
    assert!(spend("free", 0).is_none());
    assert!(spend("free", 49).is_none());
    let r = match spend("free", 50) {
        Some(r) => r,
        None => panic!("passed"),
    };
    assert_eq!(
        shown(&r),
        (
            429,
            "{\"credits_limit\":50,\"credits_used\":50,\"error\":\"Daily credit limit reached\",\"plan\":\"hobby\",\"resets\":\"midnight UTC\",\"upgrade\":\"https://compute.deep-ml.com/dashboard\"}"
                .to_string()
        )
    );
    assert!(spend("builder", 499).is_none());
    assert!(spend("pro", 500).is_some());
}

/// The status that keeps a request out, through all decisions.
fn refusal(l: &mut RateLimiter, path: &str, key: Option<&str>, tier: Option<&str>, used: u32) -> Option<u16> {
    let key = match enter(path, "admin", None, key.map(|k| k.to_string())) {
        Entry::Pass => return None,
        Entry::Deny(r) => return Some(shown(&r).0),
        Entry::Key(key) => key,
    };
    let known = tier.map(info);
    match identify(l, path, &key, known.as_ref(), 0) {
        Verdict::Pass => None,
        Verdict::Deny(r) => Some(shown(&r).0),
        Verdict::Spend => spend(tier.unwrap_or(""), used).map(|r| shown(&r).0),
    }
}

#[test]
fn who_passes() {
    let mut l = RateLimiter::new();
    assert_eq!(refusal(&mut l, "/v1/health", None, None, 0), None);
    assert_eq!(refusal(&mut l, "/v1/admin/keys", Some("k"), Some("scale"), 0), Some(403));
    assert_eq!(refusal(&mut l, "/v1/swarm", None, None, 0), Some(401));
    assert_eq!(refusal(&mut l, "/v1/swarm", Some("k"), None, 0), Some(401));
    assert_eq!(refusal(&mut l, "/v1/swarm", Some("k"), Some("free"), 49), None);
    assert_eq!(refusal(&mut l, "/v1/swarm", Some("k"), Some("free"), 50), Some(429));
    assert_eq!(refusal(&mut l, "/v1/usage", Some("k"), Some("free"), 50), None);
    assert_eq!(refusal(&mut l, "/v1/swarm", Some("s"), Some("scale"), u32::MAX), None);
}
