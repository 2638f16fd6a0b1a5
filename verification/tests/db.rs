use greed_compute::billing::Plan;
use greed_compute::clock::Timestamp;
use greed_compute::db::{
    active_key, checkpoint_from_row, expired_from_row, job_from_row, key_from_row, key_record_from_row, member_from_row,
    number_from_row, plots_json, stripe_customer_from_row, swarm_from_row, user_from_row, validated, worker_from_row,
    workspace_from_row, AuthError, Database,
};
use greed_compute::ident::new_id;
use greed_compute::maintenance::{
    autosave_name, retention_cutoff, retention_days, retention_due, run_retention_cleanup, should_record, should_save,
    ExpiredCheckpoint,
};
use greed_compute::sandbox::{NewSession, SessionManager};
use greed_compute::sql::{SqlValue, Statement};

fn t(s: &str) -> SqlValue {
    SqlValue::Text(s.to_string())
}

fn shown(s: &Statement) -> Vec<String> {
    s.params
        .iter()
        .map(|v| match v {
            SqlValue::Null => "null".to_string(),
            SqlValue::Int(i) => i.to_string(),
            SqlValue::Text(s) => s.clone(),
            SqlValue::Other => "other".to_string(),
        })
        .collect()
}

#[test]
fn statements_have_their_parameters() {
    let s = Database::create_job("j", "s", "k", "1+1", None, "now");
    assert_eq!(
        s.sql,
        "INSERT INTO jobs (id, session_id, api_key, status, code, webhook_url, created_at) VALUES (?1, ?2, ?3, ?4, ?5, ?6, ?7)"
    );
    assert_eq!(shown(&s), vec!["j", "s", "k", "queued", "1+1", "null", "now"]);
    let s = Database::set_job_running("j", "now");
    assert_eq!(s.sql, "UPDATE jobs SET status = ?1, started_at = ?2 WHERE id = ?3");
    assert_eq!(shown(&s), vec!["running", "now", "j"]);
    let s = Database::get_checkpoint("c", "k");
    assert_eq!(s.sql, "SELECT id, api_key, name, path, created_at, size_bytes FROM checkpoints WHERE id = ?1 AND api_key = ?2");
    let s = Database::delete_checkpoint_record("c", "k");
    assert_eq!((s.sql.as_str(), shown(&s).len()), ("DELETE FROM checkpoints WHERE id = ?1 AND api_key = ?2", 2));
    let s = Database::list_api_keys();
    assert_eq!(s.sql, "SELECT key, name, tier, is_active, created_at FROM api_keys ORDER BY created_at DESC");
    let s = Database::create_checkpoint_record("c", "k", "n", "/p", 7, "now");
    assert_eq!(shown(&s), vec!["c", "k", "n", "/p", "now", "7"]);
    let s = Database::record_usage("k", "execute", 12, "now");
    assert_eq!(shown(&s), vec!["k", "execute", "12", "now"]);
    assert!(Database::list_api_keys().params.is_empty());
    assert!(Database::migrate().contains("CREATE TABLE IF NOT EXISTS swarm_workers"));
    assert!(Database::open().contains("journal_mode=WAL"));
}

#[test]
fn ends_are_stored() {
    let plots = vec!["a\"b".to_string()];
    let s = Database::set_job_done("j", "out", Some("r"), None, &plots, None, 5, "now");
    assert_eq!(shown(&s), vec!["done", "out", "r", "null", "[\"a\\\"b\"]", "null", "5", "now", "j"]);
    let s = Database::set_job_done("j", "out", None, Some("e"), &vec![], Some("<t>"), 5, "now");
    assert_eq!(shown(&s), vec!["error", "out", "null", "e", "[]", "<t>", "5", "now", "j"]);
    let (s, count) = Database::set_worker_done("w", "swarm", "out", None, Some("e"), &vec![], 5, "now");
    assert_eq!(shown(&s), vec!["error", "out", "null", "e", "[]", "5", "now", "w"]);
    assert_eq!(count.sql, "UPDATE swarms SET failed_workers = failed_workers + 1 WHERE id = ?1");
    assert_eq!(shown(&count), vec!["swarm"]);
    let (s, count) = Database::set_worker_done("w", "swarm", "out", Some("r"), None, &vec![], 5, "now");
    assert_eq!(shown(&s)[0], "done");
    assert_eq!(count.sql, "UPDATE swarms SET completed_workers = completed_workers + 1 WHERE id = ?1");
    assert_eq!(
        Database::get_credits_used_today("k", "d").sql,
        "SELECT COALESCE(SUM(duration_ms), 0) FROM usage_events WHERE api_key = ?1 AND substr(timestamp, 1, 10) = ?2"
    );
    assert_eq!(
        Database::list_expired_checkpoints("t").sql,
        "SELECT id, api_key, path FROM checkpoints WHERE created_at < ?1"
    );
    let (s, tier) = Database::upsert_stripe_customer("k", "cus", Some("sub"), "pro", "active");
    assert_eq!(
        s.sql,
        "INSERT INTO stripe_customers (api_key, stripe_customer_id, subscription_id, plan, status) VALUES (?1, ?2, ?3, ?4, ?5) ON CONFLICT(api_key) DO UPDATE SET stripe_customer_id = ?2, subscription_id = ?3, plan = ?4, status = ?5"
    );
    assert_eq!(shown(&s), vec!["k", "cus", "sub", "pro", "active"]);
    assert_eq!(tier.sql, "UPDATE api_keys SET tier = ?1 WHERE key = ?2");
    assert_eq!(shown(&tier), vec!["pro", "k"]);
    let s = Database::finish_swarm("w", Some("o"), None, None, "now");
    assert_eq!(shown(&s), vec!["done", "o", "null", "null", "now", "w"]);
    assert_eq!(shown(&Database::finish_swarm("w", None, None, Some("e"), "now"))[0], "error");
}

#[test]
fn keys_are_read() {
    let row = |active| vec![t("k"), t("n"), t("pro"), SqlValue::Int(active)];
    let k = key_from_row(&row(1)).unwrap();
    assert_eq!((k.key.as_str(), k.name.as_str(), k.tier.as_str(), k.is_active), ("k", "n", "pro", true));
    assert!(active_key(key_from_row(&row(1))).is_some());
    assert!(active_key(key_from_row(&row(0))).is_none());
    assert!(active_key(None).is_none());
    assert_eq!(validated(Some(&row(1))).unwrap().tier, "pro");
    assert!(validated(Some(&row(0))).is_none());
    assert!(validated(None).is_none());
    let mut with_time = row(0);
    assert!(key_record_from_row(&with_time).is_none());
    with_time.push(t("t0"));
    let r = key_record_from_row(&with_time).unwrap();
    assert_eq!((r.info.key.as_str(), r.info.is_active, r.created_at.as_str()), ("k", false, "t0"));
    assert!(key_from_row(&vec![t("k"), SqlValue::Null, t("pro"), SqlValue::Int(1)]).is_none());
    assert!(key_from_row(&vec![t("k")]).is_none());
}

fn job_row(plots: SqlValue) -> Vec<SqlValue> {
    vec![
        t("j"),
        t("s"),
        t("k"),
        t("done"),
        t("1"),
        t("o"),
        SqlValue::Null,
        SqlValue::Null,
        plots,
        SqlValue::Null,
        SqlValue::Null,
        t("t0"),
        SqlValue::Null,
        t("t2"),
        SqlValue::Int(5),
    ]
}

#[test]
fn jobs_are_read() {
    let j = job_from_row(&job_row(t("[\"a\",\"b\"]"))).unwrap();
    assert_eq!((j.id.as_str(), j.stdout, j.result, j.duration_ms), ("j", Some("o".to_string()), None, Some(5)));
    assert_eq!(j.plots, vec!["a".to_string(), "b".to_string()]);
    assert_eq!(j.finished_at, Some("t2".to_string()));
    for bad in ["[\"a\",1]", "nope", "{}", ""] {
        assert!(job_from_row(&job_row(t(bad))).unwrap().plots.is_empty());
    }
    assert!(job_from_row(&job_row(SqlValue::Null)).unwrap().plots.is_empty());
    assert!(job_from_row(&job_row(SqlValue::Int(3))).is_none());
    let mut short = job_row(SqlValue::Null);
    short.pop();
    assert!(job_from_row(&short).is_none());
}

#[test]
fn stored_plots_come_back() {
    for plots in [vec![], vec!["a".to_string()], vec!["\"\\\n\u{1}é\u{1F600}".to_string(), String::new(), "x".to_string()]] {
        let stored = plots_json(&plots);
        assert_eq!(job_from_row(&job_row(SqlValue::Text(stored))).unwrap().plots, plots);
    }
}

#[test]
fn other_rows_are_read() {
    let s = swarm_from_row(&vec![
        t("w"),
        t("k"),
        t("running"),
        SqlValue::Int(3),
        SqlValue::Int(1),
        SqlValue::Int(0),
        SqlValue::Null,
        SqlValue::Null,
        SqlValue::Null,
        SqlValue::Null,
        t("u"),
        t("t0"),
        SqlValue::Null,
    ])
    .unwrap();
    assert_eq!((s.total_workers, s.completed_workers, s.failed_workers, s.webhook_url), (3, 1, 0, Some("u".to_string())));
    let w = worker_from_row(&vec![
        t("i"),
        t("w"),
        SqlValue::Int(2),
        SqlValue::Null,
        t("pending"),
        t("1"),
        SqlValue::Null,
        SqlValue::Null,
        SqlValue::Null,
        t("[\"p\"]"),
        SqlValue::Null,
        SqlValue::Null,
        SqlValue::Null,
    ])
    .unwrap();
    assert_eq!((w.worker_index, w.plots.len(), w.duration_ms), (2, 1, None));
    assert!(swarm_from_row(&vec![]).is_none());
    assert!(worker_from_row(&vec![]).is_none());
    let c = checkpoint_from_row(&vec![t("c"), t("k"), t("n"), t("/p"), t("t"), SqlValue::Int(9)]).unwrap();
    assert_eq!((c.path.as_str(), c.size_bytes), ("/p", 9));
    assert!(checkpoint_from_row(&vec![t("c"), t("k"), t("n"), t("/p"), t("t"), SqlValue::Other]).is_none());
    assert_eq!(stripe_customer_from_row(&vec![t("k"), t("cus"), t("active")]).unwrap().status, "active");
    let w = workspace_from_row(&vec![t("w"), t("n"), t("k"), t("t0"), t("t1"), SqlValue::Null]).unwrap();
    assert_eq!((w.owner_api_key.as_str(), w.checkpoint_path), ("k", None));
    assert_eq!(member_from_row(&vec![t("b"), t("t2")]).unwrap().joined_at, "t2");
    assert_eq!(number_from_row(Some(&vec![SqlValue::Int(4)])), 4);
    assert_eq!(number_from_row(Some(&vec![SqlValue::Null])), 0);
    assert_eq!(number_from_row(None), 0);
    assert_eq!(user_from_row(&vec![t("h"), t("k")]), Some(("h".to_string(), "k".to_string())));
    assert_eq!(expired_from_row(&vec![t("c"), t("k"), t("/p")]).unwrap().2, "/p");
}

#[test]
fn registered_users_log_in() {
    let reg = match Database::register_user("a@b.c", "hunter2", false, "now") {
        Ok(r) => r,
        Err(e) => panic!("{:?}", e),
    };
    assert!(reg.api_key.starts_with("gc_"));
    assert_eq!(reg.api_key.len(), 35);
    assert_eq!(shown(&reg.insert_key), vec![reg.api_key.as_str(), "a@b.c", "free", "now", "1"]);
    let user = shown(&reg.insert_user);
    assert_eq!(user[1..], ["a@b.c".to_string(), reg.password_hash.clone(), reg.api_key.clone(), "now".to_string()]);
    let stored = || Some((reg.password_hash.clone(), reg.api_key.clone()));
    assert_eq!(Database::login_user(stored(), "hunter2"), Ok(reg.api_key.clone()));
    assert_eq!(Database::login_user(stored(), "hunter3"), Err(AuthError::InvalidCredentials));
    assert_eq!(Database::login_user(None, "hunter2"), Err(AuthError::InvalidCredentials));
    let broken = Some(("not a hash".to_string(), "k".to_string()));
    assert_eq!(Database::login_user(broken, "hunter2"), Err(AuthError::Internal));
}

#[test]
fn registrations_that_fail() {
    assert!(matches!(Database::register_user("a@b.c", "p", true, "now"), Err(AuthError::EmailTaken)));
    assert!(matches!(Database::registration("a@b.c", None, "u", "k", "now"), Err(AuthError::Internal)));
    let key = Database::new_api_key();
    assert!(key.starts_with("greed_"));
    assert_eq!(key.len(), 38);
}

#[test]
fn expired_sessions_are_saved() {
    let mut m = SessionManager::new("w".to_string(), "p".to_string());
    let id = new_id();
    m.create_session_at(
        NewSession {
            session_id: id.clone(),
            workspace: "/w".to_string(),
            runtime: 1,
            ttl_secs: None,
            api_key: Some("k".to_string()),
            template: None,
            token_tracking: true,
        },
        Timestamp { secs: 0, nanos: 0 },
    );
    let mut s = m.get_session(&id).unwrap();
    assert!(!should_save(&s, Some("pro"), 0));
    s.touch();
    assert!(should_save(&s, Some("pro"), 0));
    assert!(should_save(&s, None, 200 * 1024 * 1024 - 1));
    assert!(!should_save(&s, None, 200 * 1024 * 1024));
    assert!(should_save(&s, Some("pro"), 200 * 1024 * 1024));
    s.api_key = None;
    assert!(!should_save(&s, Some("pro"), 0));
    assert!(should_record(1, &None));
    assert!(!should_record(0, &None));
    assert!(!should_record(1, &Some("e".to_string())));
    assert_eq!(autosave_name("0123456789"), "autosave-01234567");
}

#[test]
fn old_checkpoints_are_deleted() {
    let c = |id: &str, tier: Option<&str>| ExpiredCheckpoint {
        id: id.to_string(),
        path: "/p".to_string(),
        tier: tier.map(|s| s.to_string()),
    };
    let all = || {
        vec![
            c("1", Some("free")),
            c("2", Some("pro")),
            c("3", None),
            c("4", Some("enterprise")),
            c("5", Some("gold")),
            c("6", Some("hobby")),
            c("7", Some("builder")),
            c("8", Some("scale")),
        ]
    };
    let ids = |p: Plan| run_retention_cleanup(&p, all()).iter().map(|x| x.id.clone()).collect::<Vec<String>>();
    assert_eq!(ids(Plan::Hobby), vec!["1", "3", "6"]);
    assert_eq!(ids(Plan::Builder), vec!["2", "7"]);
    assert_eq!(ids(Plan::Scale), vec!["4", "8"]);
    assert_eq!((retention_days(&Plan::Hobby), retention_days(&Plan::Builder), retention_days(&Plan::Scale)), (3, 30, 90));
    assert!(retention_due(3600) && !retention_due(3599));
    assert_eq!(
        retention_cutoff(&Plan::Hobby, Timestamp { secs: 4 * 86_400, nanos: 0 }),
        "1970-01-02T00:00:00+00:00"
    );
}
