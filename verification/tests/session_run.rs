use greed_compute::api::session_run::{
    checkpoint_begin, checkpoint_next, job_begin, job_next, setup_answer, setup_begin, setup_next, CheckpointEvent,
    CheckpointWork, JobEvent, JobKind, JobPlan, JobWork, SetupEvent, SetupNext, SetupWork,
};
use greed_compute::clock::Timestamp;
use greed_compute::db::{ApiKeyInfo, CheckpointInfo};
use greed_compute::http::{Next, Response};
use greed_compute::json::print_json;
use greed_compute::runtime::ExecutionResult;
use greed_compute::sandbox::{Attempt, SessionInfo};

fn shown(r: Response) -> String {
    match r {
        Response::Json(c, j) => format!("{} {}", c, print_json(&j)),
        Response::Text(c, s) => format!("{} {}", c, s),
        Response::Status(c) => format!("{}", c),
        Response::Redirect(s) => s,
    }
}

fn info() -> SessionInfo {
    SessionInfo {
        session_id: "s1".to_string(),
        created_at: Timestamp { secs: 0, nanos: 0 },
        expires_at: Timestamp { secs: 900, nanos: 0 },
        workspace_path: "/w".to_string(),
        calls_used: 0,
        template: None,
    }
}

fn ran(stdout: &str, error: Option<&str>) -> ExecutionResult {
    ExecutionResult {
        stdout: stdout.to_string(),
        result: None,
        error: error.map(|s| s.to_string()),
        duration_ms: 4,
        plots: vec![],
        html: None,
        output_tokens: 0,
        state_tokens: 0,
    }
}

fn found() -> CheckpointInfo {
    CheckpointInfo {
        id: "c1".to_string(),
        api_key: "k".to_string(),
        name: "first".to_string(),
        path: "/p".to_string(),
        created_at: "then".to_string(),
        size_bytes: 14,
    }
}

fn sets_up(packages: Vec<&str>, checkpoint: Option<&str>, keyed: bool, events: Vec<SetupEvent>) -> Vec<String> {
    let packages = Some(packages.iter().map(|s| s.to_string()).collect::<Vec<String>>());
    let checkpoint = checkpoint.map(|s| s.to_string());
    let show = |w: &SetupWork| match w {
        SetupWork::Wait => "wait".to_string(),
        SetupWork::Create => "create".to_string(),
        SetupWork::Install(id) => format!("install {}", id),
        SetupWork::Find(id) => format!("find {}", id),
        SetupWork::Restore(id, path) => format!("restore {} {}", id, path),
    };
    let (mut s, work) = setup_begin();
    let mut out = vec![show(&work)];
    for e in events {
        match setup_next(&packages, &checkpoint, keyed, s, e) {
            SetupNext::Do(next, work) => {
                s = next;
                out.push(show(&work));
            }
            SetupNext::Done(o) => {
                out.push(shown(setup_answer(&checkpoint, keyed, o)));
                return out;
            }
        }
    }
    out
}

#[test]
fn sessions_are_set_up_in_order() {
    let all = sets_up(
        vec!["numpy"],
        Some("c1"),
        true,
        vec![
            SetupEvent::Created(Ok(info())),
            SetupEvent::Installed(Some(ran("ok", None))),
            SetupEvent::Found(Some(found())),
            SetupEvent::Restored(Some((vec!["x".to_string()], None))),
        ],
    );
    assert_eq!(all[..4].to_vec(), vec!["create", "install s1", "find c1", "restore s1 /p"]);
    assert_eq!(
        all[4],
        "201 {\"created_at\":\"1970-01-01T00:00:00Z\",\"expires_at\":\"1970-01-01T00:15:00Z\",\"install_error\":null,\"install_output\":\"ok\",\"restore_error\":null,\"restore_vars\":[\"x\"],\"session_id\":\"s1\",\"workspace_path\":\"/w\"}"
    );
}

#[test]
fn sessions_without_extras() {
    let plain = sets_up(vec![], None, true, vec![SetupEvent::Created(Ok(info()))]);
    assert!(plain[1].starts_with("201 ") && plain[1].contains("\"install_output\":null"));
    // without a key a checkpoint cannot be looked up
    let keyless = sets_up(vec![], Some("c1"), false, vec![SetupEvent::Created(Ok(info()))]);
    assert!(keyless[1].contains("\"restore_error\":null"));
    let missing = sets_up(vec![], Some("c1"), true, vec![SetupEvent::Created(Ok(info())), SetupEvent::Found(None)]);
    assert_eq!(missing[1], "find c1");
    assert!(missing[2].contains("\"restore_error\":\"Checkpoint 'c1' not found\""));
    let failed = sets_up(vec!["a"], None, true, vec![SetupEvent::Created(Err("no".to_string()))]);
    assert_eq!(failed[1], "500 {\"error\":\"Failed to create session: no\"}");
    let gone = sets_up(vec!["a"], None, true, vec![SetupEvent::Created(Ok(info())), SetupEvent::Installed(None)]);
    assert!(gone[2].starts_with("201 "));
    assert_eq!(sets_up(vec![], None, true, vec![SetupEvent::Installed(None)]), vec!["create", "wait"]);
}

fn job(kind: JobKind, url: Option<&str>, events: Vec<JobEvent>) -> Vec<String> {
    let plan = JobPlan { job_id: "j1".to_string(), kind, webhook_url: url.map(|s| s.to_string()) };
    let show = |w: &JobWork| match w {
        JobWork::Wait => "wait".to_string(),
        JobWork::MarkRunning => "mark".to_string(),
        JobWork::Execute => "execute".to_string(),
        JobWork::Store(x) => format!("store {}", x.stdout),
        JobWork::Post(url, j) => format!("post {} {}", url, print_json(j)),
        JobWork::Stop => "stop".to_string(),
    };
    let (mut s, work) = job_begin();
    let mut out = vec![show(&work)];
    for e in events {
        let (next, work) = job_next(&plan, s, e);
        s = next;
        out.push(show(&work));
    }
    out
}

#[test]
fn jobs_run_once() {
    let all = || vec![JobEvent::Marked, JobEvent::Ran(ran("o", Some("e"))), JobEvent::Stored, JobEvent::Posted];
    assert_eq!(job(JobKind::Request, None, all()), vec!["mark", "execute", "store o", "stop", "wait"]);
    assert_eq!(
        job(JobKind::Request, Some("u"), all())[3],
        "post u {\"duration_ms\":4,\"error\":\"e\",\"html\":null,\"job_id\":\"j1\",\"plots\":[],\"result\":null,\"status\":\"error\",\"stdout\":\"o\"}"
    );
    assert_eq!(
        job(JobKind::Tool, Some("u"), all())[3..].to_vec(),
        vec!["post u {\"error\":\"e\",\"job_id\":\"j1\",\"status\":\"done\",\"stdout\":\"o\"}", "stop"]
    );
    let twice = vec![JobEvent::Marked, JobEvent::Marked, JobEvent::Ran(ran("o", None)), JobEvent::Ran(ran("p", None))];
    assert_eq!(job(JobKind::Tool, None, twice), vec!["mark", "execute", "wait", "store o", "wait"]);
}

fn key(tier: &str) -> ApiKeyInfo {
    ApiKeyInfo { key: "k".to_string(), name: "ann".to_string(), tier: tier.to_string(), is_active: true }
}

fn makes(keyed: bool, events: Vec<CheckpointEvent>) -> Vec<String> {
    let show = |w: &CheckpointWork| match w {
        CheckpointWork::Wait => "wait".to_string(),
        CheckpointWork::Find => "find".to_string(),
        CheckpointWork::Identify => "identify".to_string(),
        CheckpointWork::Measure => "measure".to_string(),
        CheckpointWork::Save => "save".to_string(),
        CheckpointWork::Store(n) => format!("store {}", n),
    };
    let mut out = vec![];
    let mut s = match checkpoint_begin(keyed) {
        Next::Do(s, w) => {
            out.push(show(&w));
            s
        }
        Next::Answer(r) => return vec![shown(r)],
    };
    for e in events {
        match checkpoint_next("c1", "mine", s, e) {
            Next::Do(next, w) => {
                s = next;
                out.push(show(&w));
            }
            Next::Answer(r) => {
                out.push(shown(r));
                return out;
            }
        }
    }
    out
}

#[test]
fn checkpoints_are_made_in_order() {
    let up_to = |attempt, stored| {
        makes(
            true,
            vec![
                CheckpointEvent::Found(true),
                CheckpointEvent::Identified(Some(key("free"))),
                CheckpointEvent::Measured(1024 * 1024),
                CheckpointEvent::Saved(attempt),
                CheckpointEvent::Stored(stored),
            ],
        )
    };
    let all = up_to(Attempt::Ran((3 * 1024 * 1024, None)), true);
    assert_eq!(all[..5].to_vec(), vec!["find", "identify", "measure", "save", "store 3145728"]);
    assert_eq!(
        all[5],
        "200 {\"checkpoint_id\":\"c1\",\"expires_in_days\":3,\"name\":\"mine\",\"size_bytes\":3145728,\"storage_limit_mb\":200,\"storage_used_mb\":4}"
    );
    assert_eq!(up_to(Attempt::Ran((5, None)), false)[5], "500");
    assert_eq!(up_to(Attempt::Ran((5, Some("e".to_string()))), true)[4], "200 {\"error\":\"e\"}");
    assert_eq!(up_to(Attempt::Busy, true)[4], "423");
    assert_eq!(up_to(Attempt::NoSession, true)[4], "404");
}

#[test]
fn checkpoints_that_are_refused() {
    assert_eq!(makes(false, vec![]), vec!["401"]);
    assert_eq!(makes(true, vec![CheckpointEvent::Found(false)]), vec!["find", "404"]);
    assert_eq!(
        makes(true, vec![CheckpointEvent::Found(true), CheckpointEvent::Identified(None)]),
        vec!["find", "identify", "401"]
    );
    let full = makes(
        true,
        vec![
            CheckpointEvent::Found(true),
            CheckpointEvent::Identified(Some(key("free"))),
            CheckpointEvent::Measured(200 * 1024 * 1024),
            CheckpointEvent::Saved(Attempt::Ran((1, None))),
        ],
    );
    assert!(full[3].starts_with("507 {\"error\":\"Checkpoint storage quota exceeded\""));
    assert_eq!(makes(true, vec![CheckpointEvent::Stored(true)]), vec!["find", "wait"]);
}
