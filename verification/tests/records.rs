//! The statements as a database runs them.
use greed_compute::db::{
    checkpoint_from_row, job_from_row, key_from_row, key_record_from_row, number_from_row, swarm_from_row, user_from_row,
    stripe_customer_from_row, validated, worker_from_row, workspace_from_row, Database,
};
use greed_compute::sql::{SqlValue, Statement};
use rusqlite::types::{Value, ValueRef};
use rusqlite::{params_from_iter, Connection};

fn database() -> Connection {
    let conn = Connection::open_in_memory().unwrap();
    conn.execute_batch(Database::migrate()).unwrap();
    conn
}

fn bound(s: &Statement) -> Vec<Value> {
    s.params
        .iter()
        .map(|p| match p {
            SqlValue::Int(i) => Value::Integer(*i),
            SqlValue::Text(t) => Value::Text(t.clone()),
            _ => Value::Null,
        })
        .collect()
}

fn run(conn: &Connection, s: Statement) -> usize {
    conn.execute(&s.sql, params_from_iter(bound(&s))).unwrap()
}

fn rows(conn: &Connection, s: Statement) -> Vec<Vec<SqlValue>> {
    let mut stmt = conn.prepare(&s.sql).unwrap();
    let columns = stmt.column_count();
    let mut found = stmt.query(params_from_iter(bound(&s))).unwrap();
    let mut out = Vec::new();
    while let Some(row) = found.next().unwrap() {
        let mut cells = Vec::new();
        for i in 0..columns {
            cells.push(match row.get_ref(i).unwrap() {
                ValueRef::Null => SqlValue::Null,
                ValueRef::Integer(n) => SqlValue::Int(n),
                ValueRef::Text(t) => SqlValue::Text(String::from_utf8(t.to_vec()).unwrap()),
                _ => SqlValue::Other,
            });
        }
        out.push(cells);
    }
    out
}

#[test]
fn stored_key_is_valid_until_revoked() {
    let db = database();
    let find = |key: &str| validated(rows(&db, Database::validate_api_key(key)).first());
    assert!(find("k1").is_none());
    assert_eq!(run(&db, Database::create_api_key("k1", "n", "free", "t1")), 1);
    run(&db, Database::create_api_key("k2", "m", "pro", "t2"));
    let k = find("k1").unwrap();
    assert_eq!((k.key.as_str(), k.name.as_str(), k.tier.as_str(), k.is_active), ("k1", "n", "free", true));
    let named = |name: &str| rows(&db, Database::find_key_by_name(name)).first().and_then(key_from_row).map(|k| k.key);
    assert_eq!((named("n"), named("x")), (Some("k1".to_string()), None));
    // a plan applies at once
    let (stored, applied) = Database::upsert_stripe_customer("k1", "cus", Some("sub"), "enterprise", "active");
    run(&db, stored);
    run(&db, applied);
    assert_eq!(find("k1").unwrap().tier, "enterprise");
    // a revocation counts whenever the key is there
    assert_eq!(run(&db, Database::revoke_api_key("k1")), 1);
    assert_eq!(run(&db, Database::revoke_api_key("k1")), 1);
    assert_eq!(run(&db, Database::revoke_api_key("k3")), 0);
    assert!(find("k1").is_none() && named("n").is_none());
    assert_eq!(find("k2").unwrap().tier, "pro");
    let listed: Vec<(String, String, String, bool, String)> = rows(&db, Database::list_api_keys())
        .iter()
        .map(|r| key_record_from_row(r).unwrap())
        .map(|k| (k.info.key, k.info.name, k.info.tier, k.info.is_active, k.created_at))
        .collect();
    let s = |t: &str| t.to_string();
    assert_eq!(
        listed,
        vec![(s("k2"), s("m"), s("pro"), true, s("t2")), (s("k1"), s("n"), s("enterprise"), false, s("t1"))]
    );
}

#[test]
fn registered_key_is_valid() {
    let db = database();
    let reg = match Database::register_user("a@b.c", "hunter2", false, "now") {
        Ok(r) => r,
        Err(e) => panic!("{:?}", e),
    };
    let known = || number_from_row(rows(&db, Database::count_users("a@b.c")).first());
    assert_eq!(known(), 0);
    run(&db, reg.insert_key);
    run(&db, reg.insert_user);
    assert_eq!(known(), 1);
    let user = rows(&db, Database::find_user("a@b.c")).first().and_then(user_from_row);
    assert_eq!(user, Some((reg.password_hash.clone(), reg.api_key.clone())));
    assert_eq!(Database::login_user(user, "hunter2"), Ok(reg.api_key.clone()));
    let k = validated(rows(&db, Database::validate_api_key(&reg.api_key)).first()).unwrap();
    assert_eq!((k.name.as_str(), k.tier.as_str()), ("a@b.c", "free"));
}

#[test]
fn ended_job_is_read_back() {
    let db = database();
    run(&db, Database::create_api_key("k", "n", "free", "t"));
    run(&db, Database::create_job("j", "s", "k", "1+1", Some("http://u"), "t0"));
    let get = |key: &str| rows(&db, Database::get_job("j", key)).first().and_then(job_from_row);
    assert_eq!(get("k").unwrap().status, "queued");
    run(&db, Database::set_job_running("j", "t1"));
    assert_eq!(get("k").unwrap().status, "running");
    let plots = vec!["a\"b".to_string(), String::new()];
    run(&db, Database::set_job_done("j", "out", Some("2"), None, &plots, Some("<t>"), 5, "t2"));
    let j = get("k").unwrap();
    let s = |t: &str| Some(t.to_string());
    assert_eq!((j.status.as_str(), j.stdout, j.result, j.error, j.html), ("done", s("out"), s("2"), None, s("<t>")));
    assert_eq!((j.plots, j.duration_ms, j.finished_at), (plots, Some(5), s("t2")));
    assert_eq!((j.code.as_str(), j.webhook_url, j.created_at.as_str(), j.started_at), ("1+1", s("http://u"), "t0", s("t1")));
    assert!(get("other").is_none());
    assert_eq!(rows(&db, Database::list_session_jobs("s", "k")).len(), 1);
    assert_eq!(rows(&db, Database::list_session_jobs("s", "other")).len(), 0);
    run(&db, Database::set_job_done("j", "", None, Some("e"), &vec![], None, 6, "t3"));
    let j = get("k").unwrap();
    assert_eq!((j.status.as_str(), j.error), ("error", s("e")));
}

#[test]
fn stored_checkpoint_is_found() {
    let db = database();
    run(&db, Database::create_api_key("k", "n", "free", "t"));
    run(&db, Database::create_checkpoint_record("c", "k", "name", "/p", 9, "t0"));
    let get = |key: &str| rows(&db, Database::get_checkpoint("c", key)).first().and_then(checkpoint_from_row);
    let c = get("k").unwrap();
    assert_eq!((c.name.as_str(), c.path.as_str(), c.created_at.as_str(), c.size_bytes), ("name", "/p", "t0", 9));
    assert!(get("other").is_none());
    assert_eq!(rows(&db, Database::list_checkpoints("k")).len(), 1);
    assert_eq!(rows(&db, Database::list_checkpoints("other")).len(), 0);
    assert_eq!(run(&db, Database::delete_checkpoint_record("c", "other")), 0);
    assert_eq!(run(&db, Database::delete_checkpoint_record("c", "k")), 1);
    assert!(get("k").is_none());
}

#[test]
fn ended_workers_are_counted_once() {
    let db = database();
    run(&db, Database::create_api_key("k", "n", "free", "t"));
    run(&db, Database::create_swarm("w", "k", 2, None, None, "t0"));
    for (id, index) in [("a", 0), ("b", 1)] {
        run(&db, Database::create_swarm_worker(id, "w", index, "[]"));
    }
    let counts = || {
        let s = swarm_from_row(rows(&db, Database::get_swarm("w", "k")).first().unwrap()).unwrap();
        (s.completed_workers, s.failed_workers)
    };
    assert_eq!(counts(), (0, 0));
    for (id, error, expected) in [("a", None, (1, 0)), ("b", Some("e"), (1, 1))] {
        let (row, count) = Database::set_worker_done(id, "w", "out", None, error, &vec!["p".to_string()], 5, "t1");
        assert_eq!((run(&db, row), run(&db, count)), (1, 1));
        assert_eq!(counts(), expected);
    }
    let outcome = || {
        let s = swarm_from_row(rows(&db, Database::get_swarm("w", "k")).first().unwrap()).unwrap();
        (s.status, s.total_workers, s.reduce_result, s.reduce_error, s.finished_at)
    };
    let t = |x: &str| Some(x.to_string());
    assert_eq!(outcome(), ("running".to_string(), 2, None, None, None));
    run(&db, Database::finish_swarm("w", None, Some("7"), None, "t2"));
    assert_eq!(outcome(), ("done".to_string(), 2, t("7"), None, t("t2")));
    assert!(rows(&db, Database::get_swarm("w", "other")).is_empty());
    let workers: Vec<(String, Vec<String>)> = rows(&db, Database::get_swarm_workers("w"))
        .iter()
        .map(|r| worker_from_row(r).unwrap())
        .map(|w| (w.status, w.plots))
        .collect();
    let p = || vec!["p".to_string()];
    assert_eq!(workers, vec![("done".to_string(), p()), ("error".to_string(), p())]);
}

#[test]
fn workers_are_listed_in_order() {
    let db = database();
    run(&db, Database::create_swarm("w", "k", 2, Some("c"), Some("http://u"), "t0"));
    run(&db, Database::create_swarm("elsewhere", "k", 1, None, None, "t0"));
    run(&db, Database::create_swarm_worker("b", "w", 1, "[2]"));
    run(&db, Database::create_swarm_worker("a", "w", 0, "[1]"));
    run(&db, Database::create_swarm_worker("z", "elsewhere", 0, "[3]"));
    run(&db, Database::set_worker_running("b", "s", "t1"));
    let list: Vec<(String, i64, String, Option<String>, String)> = rows(&db, Database::get_swarm_workers("w"))
        .iter()
        .map(|r| worker_from_row(r).unwrap())
        .map(|w| (w.id, w.worker_index, w.status, w.session_id, w.partition))
        .collect();
    let t = |x: &str| x.to_string();
    assert_eq!(
        list,
        vec![(t("a"), 0, t("pending"), None, t("[1]")), (t("b"), 1, t("running"), Some(t("s")), t("[2]"))]
    );
}

#[test]
fn workspace_belongs_to_its_owner() {
    let db = database();
    run(&db, Database::create_workspace("w", "n", "k", "t0"));
    run(&db, Database::create_workspace("v", "n", "k2", "t0"));
    run(&db, Database::update_workspace_checkpoint("w", "/p"));
    run(&db, Database::touch_workspace("w", "t1"));
    let w = workspace_from_row(rows(&db, Database::get_workspace("w")).first().unwrap()).unwrap();
    assert_eq!((w.name.as_str(), w.owner_api_key.as_str(), w.created_at.as_str()), ("n", "k", "t0"));
    assert_eq!((w.last_accessed_at.as_str(), w.checkpoint_path), ("t1", Some("/p".to_string())));
    let number = |s: Statement| number_from_row(rows(&db, s).first());
    assert_eq!(number(Database::is_workspace_owner("w", "k")), 1);
    assert_eq!(number(Database::is_workspace_owner("w", "k2")), 0);
    // members have access without owning
    assert_eq!(number(Database::can_access_workspace("w", "k2")), 0);
    run(&db, Database::add_workspace_member("w", "k2", "t2"));
    run(&db, Database::add_workspace_member("w", "k2", "t3"));
    assert_eq!(number(Database::can_access_workspace("w", "k2")), 1);
    assert_eq!(rows(&db, Database::list_workspace_members("w")).len(), 1);
    assert_eq!(rows(&db, Database::list_workspaces("k2")).len(), 2);
    assert_eq!(run(&db, Database::remove_workspace_member("w", "k2")), 1);
    assert_eq!(number(Database::can_access_workspace("w", "k2")), 0);
    assert_eq!(number(Database::can_access_workspace("w", "k")), 1);
    // the owner cannot be removed, even as a member
    run(&db, Database::add_workspace_member("w", "k", "t4"));
    assert_eq!(run(&db, Database::remove_workspace_member("w", "k")), 0);
    assert_eq!(run(&db, Database::remove_workspace_member("w", "k3")), 0);
    assert_eq!(rows(&db, Database::list_workspace_members("w")).len(), 1);
    assert_eq!(number(Database::can_access_workspace("w", "k")), 1);
    // elsewhere the same key is a member like others
    run(&db, Database::add_workspace_member("v", "k", "t5"));
    assert_eq!(run(&db, Database::remove_workspace_member("v", "k")), 1);
    assert_eq!(run(&db, Database::delete_workspace("w", "k2")), 0);
    assert_eq!(run(&db, Database::delete_workspace("w", "k")), 1);
    assert!(rows(&db, Database::get_workspace("w")).is_empty());
}

#[test]
fn usage_adds_up() {
    let db = database();
    let number = |s: Statement| number_from_row(rows(&db, s).first());
    assert_eq!(number(Database::checkpoint_storage_used("k")), 0);
    run(&db, Database::create_api_key("k", "n", "free", "t"));
    run(&db, Database::create_checkpoint_record("a", "k", "n", "/a", 5, "2026-01-01"));
    run(&db, Database::create_checkpoint_record("b", "k", "n", "/b", 7, "2026-02-01"));
    assert_eq!(number(Database::checkpoint_storage_used("k")), 12);
    assert_eq!(rows(&db, Database::list_expired_checkpoints("2026-01-15")).len(), 1);
    run(&db, Database::delete_checkpoint_by_id("a"));
    assert_eq!(number(Database::checkpoint_storage_used("k")), 7);
    for (ms, at) in [(1500, "2026-03-01T10:00:00"), (500, "2026-03-01T11:00:00"), (9000, "2026-03-02T00:00:00")] {
        run(&db, Database::record_usage_event("k", "execute", Some("s"), None, ms, 1, 2, at));
    }
    assert_eq!(number(Database::get_credits_used_today("k", "2026-03-01")), 2000);
    run(&db, Database::record_usage("k", "execute", 12, "2026-03-01"));
    assert_eq!(number(Database::get_usage_count("k", "2026-03-01")), 1);
    assert_eq!(number(Database::get_usage_count("k", "2026-03-02")), 0);
}

#[test]
fn subscriptions_are_found() {
    let db = database();
    let store = |key: &str, customer: &str, status: &str| {
        run(&db, Database::upsert_stripe_customer(key, customer, Some("sub"), "pro", status).0)
    };
    let found = |s: Statement| {
        rows(&db, s).first().and_then(stripe_customer_from_row).map(|c| (c.api_key, c.stripe_customer_id, c.status))
    };
    let t = |a: &str, b: &str, c: &str| Some((a.to_string(), b.to_string(), c.to_string()));
    assert_eq!(found(Database::get_stripe_customer("k")), None);
    assert_eq!(store("k", "cus_1", "active"), 1);
    assert_eq!(store("k2", "cus_2", "active"), 1);
    assert_eq!(found(Database::get_stripe_customer("k")), t("k", "cus_1", "active"));
    assert_eq!(store("k", "cus_3", "past_due"), 1);
    assert_eq!(found(Database::get_stripe_customer("k")), t("k", "cus_3", "past_due"));
    assert_eq!(found(Database::get_stripe_customer_by_stripe_id("cus_3")), t("k", "cus_3", "past_due"));
    assert_eq!(found(Database::get_stripe_customer_by_stripe_id("cus_1")), None);
    assert_eq!(found(Database::get_stripe_customer("k2")), t("k2", "cus_2", "active"));
}

#[test]
fn usage_is_kept_apart() {
    let db = database();
    let number = |s: Statement| number_from_row(rows(&db, s).first());
    for key in ["k", "k2"] {
        run(&db, Database::create_api_key(key, key, "free", "t"));
    }
    for (key, ms, at) in [("k", 1500, "2026-03-01T10:00:00"), ("k2", 40, "2026-03-01T11:00:00"), ("k", 3, "2026-03-01")] {
        run(&db, Database::record_usage_event(key, "execute", None, Some("w"), ms, 1, 2, at));
    }
    assert_eq!(number(Database::get_credits_used_today("k", "2026-03-01")), 1503);
    assert_eq!(number(Database::get_credits_used_today("k2", "2026-03-01")), 40);
    assert_eq!(number(Database::get_credits_used_today("k", "2026-03-02")), 0);
    run(&db, Database::create_checkpoint_record("a", "k", "n", "/a", 5, "2026-01-01"));
    run(&db, Database::create_checkpoint_record("b", "k2", "n", "/b", 7, "2026-01-02"));
    let used = |key: &str| number(Database::checkpoint_storage_used(key));
    assert_eq!((used("k"), used("k2"), used("k3")), (5, 7, 0));
    run(&db, Database::delete_checkpoint_record("a", "k2"));
    assert_eq!((used("k"), used("k2")), (5, 7));
    run(&db, Database::delete_checkpoint_record("a", "k"));
    assert_eq!((used("k"), used("k2")), (0, 7));
    assert_eq!(rows(&db, Database::list_expired_checkpoints("2026-01-02")).len(), 0);
    assert_eq!(rows(&db, Database::list_expired_checkpoints("2026-01-02T00")).len(), 1);
}
