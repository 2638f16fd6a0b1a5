use greed_compute::clock::{date_or_today, now_rfc3339, seconds_left, utc_now, Timestamp, MAX_SECS};
use greed_compute::ident::{key_from, new_id, short_name};
use greed_compute::sandbox::{
    session_workspace, template_workspace, ttl_is_possible, warm_workspace, workspace_error, Acquired, NewSession, Session,
    SessionManager, SessionTemplate,
};

fn at(secs: i64, nanos: u32) -> Timestamp {
    Timestamp { secs, nanos }
}

fn manager() -> SessionManager {
    SessionManager::new("worker.py".to_string(), "python3".to_string())
}

fn plan(id: &str) -> NewSession {
    NewSession {
        session_id: id.to_string(),
        workspace: format!("/tmp/greed-compute/{}", id),
        runtime: 7,
        ttl_secs: None,
        api_key: Some("greed_1".to_string()),
        template: Some(SessionTemplate::DataScience),
        token_tracking: true,
    }
}

fn session(m: &SessionManager, id: &str) -> Session {
    match m.get_session(id) {
        Some(s) => s,
        None => panic!("no session"),
    }
}

#[test]
fn templates_by_name() {
    for (name, t) in [
        ("data-science", SessionTemplate::DataScience),
        ("data_science", SessionTemplate::DataScience),
        ("datascience", SessionTemplate::DataScience),
        ("ml", SessionTemplate::MachineLearning),
        ("machine-learning", SessionTemplate::MachineLearning),
        ("machine_learning", SessionTemplate::MachineLearning),
        ("web", SessionTemplate::WebScraping),
        ("web-scraping", SessionTemplate::WebScraping),
        ("scraping", SessionTemplate::WebScraping),
        ("blank", SessionTemplate::Blank),
        ("", SessionTemplate::Blank),
    ] {
        assert_eq!(SessionTemplate::from_str(name), Some(t));
        assert_eq!(SessionTemplate::from_str(t.name()), Some(t));
    }
    assert_eq!(SessionTemplate::from_str("Data-Science"), None);
    assert_eq!(SessionTemplate::from_str("gpu"), None);
}

#[test]
fn packages_of_templates() {
    assert_eq!(SessionTemplate::DataScience.packages(), &["numpy", "pandas", "matplotlib", "scikit-learn", "scipy"]);
    assert_eq!(SessionTemplate::MachineLearning.packages(), &["torch", "transformers", "datasets", "accelerate"]);
    assert_eq!(SessionTemplate::WebScraping.packages(), &["requests", "httpx", "beautifulsoup4", "lxml"]);
    assert!(SessionTemplate::Blank.packages().is_empty());
    assert_eq!(SessionTemplate::Blank.install_code(), None);
    assert_eq!(
        SessionTemplate::WebScraping.install_code().unwrap(),
        "import subprocess as _sp\n_sp.run(['pip','install','-q','requests','httpx','beautifulsoup4','lxml'], check=True)\ndel _sp"
    );
}

#[test]
fn identifiers() {
    let id = new_id();
    assert_eq!(id.len(), 36);
    assert_eq!(id.matches('-').count(), 4);
    assert_eq!(id.as_bytes()[14], b'4');
    assert_ne!(id, new_id());
    let key = key_from("gc_", &id);
    assert_eq!(key.len(), 35);
    assert!(key.starts_with("gc_"));
    assert!(!key.contains('-'));
    assert_eq!(short_name("checkpoint-", "0123456789"), "checkpoint-01234567");
}

#[test]
fn times() {
    assert_eq!(seconds_left(at(100, 0), at(1000, 0)), 900);
    assert_eq!(seconds_left(at(100, 1), at(1000, 0)), 899);
    assert_eq!(seconds_left(at(1000, 0), at(1000, 999)), 0);
    assert_eq!(seconds_left(at(1001, 0), at(1000, 5)), 0);
    assert_eq!(date_or_today(None, at(0, 0)), "1970-01-01");
    assert_eq!(date_or_today(None, at(1_775_692_800, 0)), "2026-04-09");
    assert_eq!(date_or_today(Some("d".to_string()), at(0, 0)), "d");
    let now = now_rfc3339();
    assert!(now.contains('T') && now.ends_with("+00:00"));
    assert!(utc_now().secs > 1_600_000_000);
}

#[test]
fn session_is_created_found_and_ended() {
    let mut m = manager();
    let id = new_id();
    assert!(m.get_session(&id).is_none());
    let info = m.create_session_at(plan(&id), at(1000, 5));
    assert_eq!(info.session_id, id);
    assert_eq!(info.created_at, at(1000, 5));
    assert_eq!(info.expires_at, at(1900, 5));
    assert_eq!(info.calls_used, 0);
    assert_eq!(info.template, Some("data-science".to_string()));
    assert_eq!(m.active_session_count(), 1);
    let s = session(&m, &id);
    assert_eq!(s.runtime, 7);
    assert_eq!(s.api_key, Some("greed_1".to_string()));
    assert_eq!(s.expires_at_secs, 1900);
    match m.terminate_session(&id) {
        Some(s) => assert_eq!(s.workspace, format!("/tmp/greed-compute/{}", id)),
        None => panic!("not ended"),
    }
    assert!(m.terminate_session(&id).is_none());
    assert_eq!(m.active_session_count(), 0);
}

#[test]
fn session_created_now() {
    let mut m = manager();
    let id = new_id();
    let before = utc_now();
    let info = match m.create_session_for_key(plan(&id)) {
        Some(i) => i,
        None => panic!("no session"),
    };
    assert!(info.created_at.secs >= before.secs);
    assert_eq!(info.expires_at.secs, info.created_at.secs + 900);
    match m.get_session_status(&id) {
        Some(s) => assert!(s.ttl_remaining >= 890 && s.ttl_remaining <= 900),
        None => panic!("no status"),
    }
    let mut long = plan(&new_id());
    long.ttl_secs = Some(i64::MAX);
    assert!(m.create_session_for_key(long).is_none());
    assert_eq!(m.active_session_count(), 1);
    let bare = new_id();
    assert!(m.create_session(bare.clone(), "/w".to_string(), 3, Some(60), false).is_some());
    let s = session(&m, &bare);
    assert_eq!((s.api_key, s.info.template, s.runtime, s.token_tracking), (None, None, 3, false));
    assert_eq!(s.expires_at_secs - s.info.created_at.secs, 60);
    assert!(m.create_session(new_id(), "/w".to_string(), 3, Some(i64::MIN), false).is_none());
    assert!(m.terminate_session(&bare).is_some());
    let s = session(&m, &id);
    assert_eq!(s.expires_at(), at(info.created_at.secs + 900, 0));
}

#[test]
fn lifetimes_that_fit() {
    assert!(ttl_is_possible(None, at(0, 0)));
    assert!(ttl_is_possible(Some(-5), at(0, 0)));
    assert!(!ttl_is_possible(Some(i64::MAX), at(0, 0)));
    assert!(ttl_is_possible(Some(MAX_SECS), at(0, 0)));
    assert!(!ttl_is_possible(Some(MAX_SECS), at(1, 0)));
}

#[test]
fn status_counts_down_and_execution_renews() {
    let mut m = manager();
    let id = new_id();
    m.create_session_at(plan(&id), at(1000, 0));
    let left = |m: &SessionManager, t: Timestamp| match m.status_at(&id, t) {
        Some(s) => (s.active, s.ttl_remaining, s.calls_used, s.session_id),
        None => panic!("no status"),
    };
    assert_eq!(left(&m, at(1000, 0)), (true, 900, 0, id.clone()));
    assert_eq!(left(&m, at(1053, 0)), (true, 847, 0, id.clone()));
    assert_eq!(left(&m, at(1053, 1)).1, 846);
    assert_eq!(left(&m, at(5000, 0)).1, 0);
    m.touch_session(&id, at(1500, 9));
    assert_eq!(left(&m, at(1500, 9)), (true, 899, 1, id.clone()));
    assert_eq!(left(&m, at(1500, 0)).1, 900);
    m.touch_session("nobody", at(1500, 9));
    assert_eq!(m.active_session_count(), 1);
    assert!(m.status_at("nobody", at(0, 0)).is_none());
}

#[test]
fn expired_sessions_are_drained() {
    let mut m = manager();
    let (a, b, c) = (new_id(), new_id(), new_id());
    m.create_session_at(plan(&a), at(1000, 0));
    m.create_session_at(plan(&b), at(1100, 0));
    m.create_session_at(plan(&c), at(1200, 0));
    assert!(m.drain_expired_at(at(1900, 0)).is_empty());
    let out = m.drain_expired_at(at(2000, 1));
    let mut ids: Vec<String> = out.iter().map(|e| e.0.clone()).collect();
    ids.sort();
    let mut want = vec![a.clone(), b.clone()];
    want.sort();
    assert_eq!(ids, want);
    for (id, s) in &out {
        assert_eq!(&s.info.session_id, id);
    }
    assert_eq!(m.active_session_count(), 1);
    assert!(m.get_session(&c).is_some());
    // all of these expired long ago
    assert_eq!(m.drain_expired().len(), 1);
    assert_eq!(m.active_session_count(), 0);
}

#[test]
fn tokens_are_counted() {
    let mut m = manager();
    let id = new_id();
    m.create_session_at(plan(&id), at(1000, 0));
    let (mut s, filed) = m.check_out(session(&m, &id));
    assert!(filed);
    assert_eq!(m.active_session_count(), 0);
    s.record_tokens(10, 100);
    s.record_tokens(5, 40);
    assert!(s.can_report());
    let r = s.token_report();
    assert_eq!(r.total_output_tokens, 15);
    assert_eq!(r.peak_session_state_tokens, 140);
    assert_eq!(r.estimated_tokens_without_sandbox, 155);
    assert_eq!(r.net_token_savings, 140);
    s.touch_at(at(1000, 0));
    s.touch_at(at(1000, 0));
    s.touch();
    assert_eq!(s.calls_used(), 3);
    let r = s.token_report();
    assert_eq!(r.estimated_tokens_without_sandbox, 15 + 140 * 3);
    assert_eq!(r.net_token_savings, 420);
    m.check_in(s);
    assert_eq!(session(&m, &id).calls_used, 3);
    // a session that is gone stays as the copy at hand
    let copy = session(&m, &id);
    m.terminate_session(&id);
    let (s, filed) = m.check_out(copy);
    assert!(!filed);
    assert_eq!(s.calls_used, 3);
}

#[test]
fn token_counts_wrap_and_reports_stop() {
    let mut m = manager();
    let id = new_id();
    m.create_session_at(plan(&id), at(1000, 0));
    let mut s = session(&m, &id);
    s.record_tokens(u64::MAX, u64::MAX);
    assert!(!s.can_report());
    s.record_tokens(2, 1);
    assert_eq!((s.cumulative_output_tokens, s.cumulative_state_tokens), (1, 0));
    assert!(s.can_report());
    s.calls_used = u64::MAX;
    s.touch_at(at(0, 0));
    assert_eq!(s.calls_used, 0);
}

#[test]
fn warm_workers() {
    let mut m = manager();
    assert_eq!(m.warm_needed(), 3);
    m.add_warm(1);
    m.add_warm(2);
    assert_eq!((m.warm_needed(), m.warm_pool_size()), (1, 2));
    assert!(matches!(m.acquire(None), Acquired::Warm(2)));
    assert!(matches!(m.acquire(Some(SessionTemplate::Blank)), Acquired::Warm(1)));
    assert!(matches!(m.acquire(None), Acquired::Cold(None)));
    assert_eq!(m.warm_needed(), 3);
}

#[test]
fn template_workers() {
    let mut m = manager();
    let t = SessionTemplate::WebScraping;
    let mut sizes = m.template_pool_sizes();
    sizes.sort();
    assert_eq!(
        sizes,
        vec![("data-science".to_string(), 0), ("machine-learning".to_string(), 0), ("web-scraping".to_string(), 0)]
    );
    assert_eq!(m.template_needed(t, 1), 1);
    assert_eq!(m.template_needed(SessionTemplate::Blank, 1), 0);
    assert!(!m.offer_template(t, 4, Some("pip failed".to_string())));
    assert!(!m.offer_template(SessionTemplate::Blank, 4, None));
    assert!(m.offer_template(t, 5, None));
    assert_eq!(m.template_needed(t, 1), 0);
    match m.acquire(Some(SessionTemplate::DataScience)) {
        Acquired::Cold(code) => assert_eq!(code, SessionTemplate::DataScience.install_code()),
        _ => panic!("warm"),
    }
    assert!(matches!(m.acquire(Some(t)), Acquired::Warm(5)));
    assert!(matches!(m.acquire(Some(t)), Acquired::Cold(Some(_))));
}

#[test]
fn paths_and_words_of_a_manager() {
    let m = manager();
    assert_eq!(m.worker_path(), "worker.py");
    assert_eq!(m.python_path(), "python3");
    assert_eq!(session_workspace("/tmp", "id"), "/tmp/greed-compute/id");
    assert_eq!(session_workspace("/tmp/", "id"), "/tmp/greed-compute/id");
    assert_eq!(warm_workspace("/tmp"), "/tmp/greed-compute/_warm_pool");
    assert_eq!(template_workspace("/tmp", SessionTemplate::DataScience), "/tmp/greed-compute/_template_data-science");
    assert_eq!(workspace_error("full"), "Failed to create workspace directory: full");
}

#[test]
fn sessions_of_a_key_are_counted() {
    let mut m = manager();
    for (owner, count) in [("a", 3), ("b", 1)] {
        for _ in 0..count {
            let mut p = plan(&new_id());
            p.api_key = Some(owner.to_string());
            m.create_session_at(p, at(1000, 0));
        }
    }
    let mut p = plan(&new_id());
    p.api_key = None;
    m.create_session_at(p, at(1000, 0));
    assert_eq!((m.key_session_count("a"), m.key_session_count("b"), m.key_session_count("c")), (3, 1, 0));
    assert_eq!(m.active_session_count(), 5);
}

#[test]
fn copies_are_equal() {
    let mut m = manager();
    let id = new_id();
    m.create_session_at(plan(&id), at(1000, 0));
    let mut s = session(&m, &id);
    s.record_tokens(3, 4);
    s.touch_at(at(2000, 0));
    let c = s.copy();
    assert_eq!((c.info.session_id.as_str(), c.info.workspace_path.as_str()), (id.as_str(), s.info.workspace_path.as_str()));
    assert_eq!((c.expires_at_secs, c.calls_used, c.runtime), (s.expires_at_secs, 1, s.runtime));
    assert_eq!((c.cumulative_output_tokens, c.cumulative_state_tokens), (3, 4));
    assert_eq!((c.api_key, c.workspace, c.token_tracking), (s.api_key, s.workspace, s.token_tracking));
}
