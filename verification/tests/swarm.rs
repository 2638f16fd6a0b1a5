use base64::Engine;
use greed_compute::api::swarm::{
    admit_swarm, after_template, after_template_checkpoint, captured_result, get_swarm, last_assigned_var, create_swarm,
    swarm_webhook, worker_code, worker_done, worker_index, worker_result, worker_slots, Reducer, WorkerEnd, WorkerResult,
};
use greed_compute::api::stragglers::Stragglers;
use greed_compute::db::{SwarmRecord, SwarmWorkerRecord};
use greed_compute::http::Response;
use greed_compute::json::{parse_json, print_json, Json};
use greed_compute::runtime::ExecutionResult;

fn parsed(text: &str) -> Json {
    match parse_json(text.as_bytes()) {
        Ok(j) => j,
        Err(e) => panic!("{}", e),
    }
}

fn run(stdout: &str, result: Option<&str>, error: Option<&str>) -> ExecutionResult {
    ExecutionResult {
        stdout: stdout.to_string(),
        result: result.map(|s| s.to_string()),
        error: error.map(|s| s.to_string()),
        duration_ms: 1,
        plots: vec!["p".to_string()],
        html: None,
        output_tokens: 0,
        state_tokens: 0,
    }
}

fn worker(id: &str, index: i64) -> SwarmWorkerRecord {
    SwarmWorkerRecord {
        id: id.to_string(),
        swarm_id: "w".to_string(),
        worker_index: index,
        session_id: None,
        status: "pending".to_string(),
        partition: "1".to_string(),
        stdout: None,
        result: None,
        error: None,
        plots: vec![],
        duration_ms: None,
        started_at: None,
        finished_at: None,
    }
}

fn record() -> SwarmRecord {
    SwarmRecord {
        id: "w".to_string(),
        api_key: "k".to_string(),
        status: "done".to_string(),
        total_workers: 2,
        completed_workers: 1,
        failed_workers: 1,
        template_checkpoint_id: None,
        reduce_stdout: Some("o".to_string()),
        reduce_result: Some("r".to_string()),
        reduce_error: None,
        webhook_url: None,
        created_at: "t0".to_string(),
        finished_at: Some("t1".to_string()),
    }
}

#[test]
fn last_assignment_is_found() {
    let v = |s: &str| last_assigned_var(s);
    assert_eq!(v("total = sum(results)"), Some("total".to_string()));
    assert_eq!(v("a = 1\nb = 2\nprint(b)"), Some("b".to_string()));
    assert_eq!(v("a = 1\r\n  _x9\t=3\r\nif a == b:\n  pass"), Some("_x9".to_string()));
    assert_eq!(v("x == 1"), None);
    assert_eq!(v("x ==1\ny=1"), Some("y".to_string()));
    assert_eq!(v("x=\n"), Some("x".to_string()));
    assert_eq!(v("x += 1"), None);
    assert_eq!(v("x.y = 1"), None);
    assert_eq!(v("x[0] = 1"), None);
    assert_eq!(v("1x = 1"), None);
    assert_eq!(v("é = 1"), None);
    assert_eq!(v("a b = 1"), None);
    assert_eq!(v("f(x = 1)"), None);
    assert_eq!(v(""), None);
    assert_eq!(v("x != 1"), None);
    assert_eq!(v("x"), None);
}

#[test]
fn slots_of_workers() {
    let data = vec![parsed("[1, 2]"), parsed("{\"a\": null}")];
    let slots = worker_slots(&data);
    assert_eq!(slots.len(), 2);
    assert_eq!((slots[0].index, slots[0].partition.as_str()), (0, "[1,2]"));
    assert_eq!((slots[1].index, slots[1].partition.as_str()), (1, "{\"a\":null}"));
    assert_eq!(slots[0].id.len(), 36);
    assert_ne!(slots[0].id, slots[1].id);
}

#[test]
fn code_of_a_worker() {
    let code = worker_code(&parsed("[1,2]"), "result = sum(partition)");
    assert_eq!(
        code,
        "import json as _json, base64 as _b64\npartition = _json.loads(_b64.b64decode('WzEsMl0='))\ndel _json, _b64\nresult = sum(partition)\nresult"
    );
    // quotes and line feeds in the data stay inside the literal
    let nasty = Json::Str("')\nimport os #\\".to_string());
    let code = worker_code(&nasty, "m");
    let literal = code.split('\'').nth(1).unwrap();
    let bytes = base64::engine::general_purpose::STANDARD.decode(literal).unwrap();
    assert_eq!(String::from_utf8(bytes).unwrap(), print_json(&nasty));
    assert_eq!(code.lines().count(), 5);
}

#[test]
fn captured_results() {
    assert_eq!(captured_result(&run("out", Some("r"), None)), Some("r".to_string()));
    assert_eq!(captured_result(&run("  out\n", None, None)), Some("out".to_string()));
    assert_eq!(captured_result(&run(" \n", None, None)), None);
}

#[test]
fn indexes_of_workers() {
    let w = vec![worker("a", 4), worker("b", 1), worker("b", 9), worker("c", -1)];
    assert_eq!(worker_index(&w, "a"), 4);
    assert_eq!(worker_index(&w, "b"), 1);
    assert_eq!(worker_index(&w, "c"), u64::MAX);
    assert_eq!(worker_index(&w, "z"), 0);
}

#[test]
fn ends_of_workers() {
    let end = WorkerEnd::NoSession("none".to_string());
    let d = worker_done(&end, 50);
    assert_eq!((d.stdout.as_str(), d.result, d.error, d.duration_ms), ("", None, Some("none".to_string()), 0));
    let r = worker_result(&end, 3).unwrap();
    assert_eq!((r.worker_index, r.result, r.error), (3, None, Some("none".to_string())));
    let d = worker_done(&WorkerEnd::Vanished, 50);
    assert_eq!(d.error, Some("session disappeared".to_string()));
    assert!(worker_result(&WorkerEnd::Vanished, 3).is_none());
    let end = WorkerEnd::Ran(run("o", None, None));
    let d = worker_done(&end, 50);
    assert_eq!((d.result, d.duration_ms, d.plots.len()), (Some("o".to_string()), 50, 1));
    let r = worker_result(&end, 3).unwrap();
    assert_eq!((r.worker_index, r.result, r.stdout.as_str()), (3, Some("o".to_string()), "o"));
}

#[test]
fn reduction_is_fed() {
    let r = Reducer::new("total = sum(r['result'] for r in results)".to_string());
    assert_eq!(Reducer::start_code(), "results = []\n_reduce_running = None");
    let w = WorkerResult { worker_index: 2, result: Some("[1, 2]".to_string()), stdout: "o".to_string(), error: None };
    let code = r.feed_code(&w);
    let literal = code.split('\'').nth(1).unwrap();
    let bytes = base64::engine::general_purpose::STANDARD.decode(literal).unwrap();
    assert_eq!(
        String::from_utf8(bytes).unwrap(),
        "{\"error\":null,\"result\":[1,2],\"stdout\":\"o\",\"worker_index\":2}"
    );
    assert!(code.starts_with("import json as _j, base64 as _b64\nresults.append(_j.loads(_b64.b64decode('"));
    assert!(code.ends_with("')))\ndel _j, _b64\ntotal = sum(r['result'] for r in results)"));
    let w = WorkerResult { worker_index: 0, result: Some("not json".to_string()), stdout: String::new(), error: Some("e".to_string()) };
    let code = r.feed_code(&w);
    let bytes = base64::engine::general_purpose::STANDARD.decode(code.split('\'').nth(1).unwrap()).unwrap();
    assert_eq!(String::from_utf8(bytes).unwrap(), "{\"error\":\"e\",\"result\":null,\"stdout\":\"\",\"worker_index\":0}");
}

#[test]
fn latest_reduction_counts() {
    let mut r = Reducer::new("total = 1".to_string());
    r.absorb(run("a", Some("1"), None));
    assert_eq!(r.final_code(), None);
    r.absorb(run("b", None, Some("e")));
    assert_eq!((r.stdout.clone(), r.result.clone(), r.error.clone()), (Some("b".to_string()), None, Some("e".to_string())));
    assert_eq!(r.final_code(), Some("total".to_string()));
    r.finish(&run("", None, None));
    assert_eq!(r.result, None);
    r.finish(&run(" 7\n", None, None));
    assert_eq!((r.stdout, r.result, r.error), (Some("b".to_string()), Some("7".to_string()), Some("e".to_string())));
}

#[test]
fn reductions_without_a_session() {
    let mut r = Reducer::new("x".to_string());
    r.no_session("full");
    assert_eq!((r.stdout.clone(), r.error.clone()), (None, Some("Reducer session failed: full".to_string())));
    r.vanished();
    assert_eq!(r.error, Some("Reducer session disappeared".to_string()));
}

#[test]
fn swarms_are_admitted() {
    assert!(matches!(admit_swarm(None, 3), Err(Response::Status(401))));
    match admit_swarm(Some("k".to_string()), 0) {
        Err(Response::Json(200, j)) => assert_eq!(print_json(&j), "{\"error\":\"data must have at least one partition\"}"),
        _ => panic!("admitted"),
    }
    assert!(matches!(admit_swarm(Some("k".to_string()), 1), Ok(k) if k == "k"));
}

#[test]
fn templates_of_swarms() {
    match after_template("boom") {
        Response::Json(200, j) => assert_eq!(print_json(&j), "{\"detail\":\"boom\",\"error\":\"template_code failed\"}"),
        _ => panic!("went on"),
    }
    match after_template_checkpoint("full") {
        Response::Json(200, j) => {
            assert_eq!(print_json(&j), "{\"detail\":\"full\",\"error\":\"template checkpoint failed\"}")
        }
        _ => panic!("went on"),
    }
}

#[test]
fn swarms_are_answered() {
    match create_swarm("w", 2, true) {
        Response::Json(200, j) => assert_eq!(
            print_json(&j),
            "{\"status\":\"running\",\"swarm_id\":\"w\",\"template_cloning\":true,\"total_workers\":2}"
        ),
        _ => panic!("no JSON"),
    }
    assert!(matches!(get_swarm(false, Some(&record()), &vec![]), Response::Status(401)));
    assert!(matches!(get_swarm(true, None, &vec![]), Response::Status(404)));
    match get_swarm(true, Some(&record()), &vec![worker("a", 0)]) {
        Response::Json(200, j) => assert_eq!(
            print_json(&j),
            "{\"completed_workers\":1,\"created_at\":\"t0\",\"failed_workers\":1,\"finished_at\":\"t1\",\"reduce_error\":null,\"reduce_result\":\"r\",\"reduce_stdout\":\"o\",\"status\":\"done\",\"swarm_id\":\"w\",\"total_workers\":2,\"workers\":[{\"duration_ms\":null,\"error\":null,\"finished_at\":null,\"id\":\"a\",\"partition\":\"1\",\"plots\":[],\"result\":null,\"session_id\":null,\"started_at\":null,\"status\":\"pending\",\"stdout\":null,\"swarm_id\":\"w\",\"worker_index\":0}]}"
        ),
        _ => panic!("no JSON"),
    }
    let mut r = Reducer::new("x".to_string());
    r.absorb(run("o", Some("v"), None));
    assert_eq!(
        print_json(&swarm_webhook(&record(), &r)),
        "{\"completed_workers\":1,\"failed_workers\":1,\"reduce_error\":null,\"reduce_result\":\"v\",\"reduce_stdout\":\"o\",\"status\":\"done\",\"swarm_id\":\"w\"}"
    );
}

#[test]
fn stragglers_get_one_backup() {
    let mut s = Stragglers::new(5, 1000);
    assert!(!s.done());
    assert!(s.finish(0, 1010));
    assert!(s.finish(1, 1030));
    // two of five are not half
    assert!(s.backups(9000).is_empty());
    assert!(s.finish(4, 1100));
    // the median of 10, 30 and 100 is 30
    assert!(s.backups(1060).is_empty());
    assert_eq!(s.backups(1061), vec![2, 3]);
    assert!(s.backups(9999).is_empty());
    // the first to finish wins
    assert!(s.finish(2, 1070));
    assert!(!s.finish(2, 1080));
    assert!(!s.finish(5, 1080));
    assert!(!s.done());
    assert!(s.finish(3, 900));
    assert!(s.done());
}

#[test]
fn median_of_an_even_count() {
    let mut s = Stragglers::new(4, 0);
    assert!(s.finish(3, 30));
    assert!(s.finish(0, 11));
    // twice the median of 11 and 30 is 41
    assert!(s.backups(41).is_empty());
    assert_eq!(s.backups(42), vec![1, 2]);
    let mut none = Stragglers::new(0, 0);
    assert!(none.done() && none.backups(5).is_empty());
    let mut long = Stragglers::new(4, 0);
    assert!(long.finish(0, u64::MAX) && long.finish(1, u64::MAX));
    assert!(long.backups(u64::MAX).is_empty());
}

#[test]
fn workers_give_up() {
    let mut s = Stragglers::new(3, 0);
    assert!(s.give_up(0, 10));
    assert!(!s.give_up(0, 11));
    assert!(s.finish(1, 10));
    assert_eq!(s.backups(21), vec![2]);
    assert!(!s.give_up(2, 30));
    assert!(s.backups(1000).is_empty());
    assert!(!s.done());
    assert!(s.finish(2, 40));
    assert!(!s.give_up(2, 41) && !s.give_up(9, 41));
    assert!(s.done());
}
