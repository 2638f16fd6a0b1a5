use greed_compute::api::mcp::{parse_tool, ToolRequest};
use greed_compute::api::session_run::{SetupEvent, SetupWork};
use greed_compute::api::tool_run::{dispatch, dispatch_next, ToolEvent, ToolNext, ToolWork};
use greed_compute::clock::Timestamp;
use greed_compute::db::{CheckpointInfo, JobRecord};
use greed_compute::json::parse_json;
use greed_compute::runtime::ExecutionResult;
use greed_compute::sandbox::{Attempt, SessionInfo, SessionStatus};

fn request(tool: &str, arguments: &str) -> ToolRequest {
    let arguments = match parse_json(arguments.as_bytes()) {
        Ok(j) => j,
        Err(e) => panic!("{}", e),
    };
    match parse_tool(tool, &arguments) {
        Ok(r) => r,
        Err(e) => panic!("{}", e),
    }
}

fn shown(w: &ToolWork) -> String {
    match w {
        ToolWork::Wait => "wait".to_string(),
        ToolWork::Setup(SetupWork::Create) => "create".to_string(),
        ToolWork::Setup(SetupWork::Install(id)) => format!("install in {}", id),
        ToolWork::Setup(SetupWork::Find(id)) => format!("find {}", id),
        ToolWork::Setup(SetupWork::Restore(id, path)) => format!("restore {} {}", id, path),
        ToolWork::Setup(SetupWork::Wait) => "wait for setup".to_string(),
        ToolWork::Execute => "execute".to_string(),
        ToolWork::Install => "install".to_string(),
        ToolWork::Seek => "seek".to_string(),
        ToolWork::StoreJob => "store job".to_string(),
        ToolWork::StartJob => "start job".to_string(),
        ToolWork::GetJob => "get job".to_string(),
        ToolWork::GetStatus => "get status".to_string(),
        ToolWork::EndSession => "end".to_string(),
        ToolWork::Save => "save".to_string(),
        ToolWork::Record(name, size) => format!("record {} {}", name, size),
        ToolWork::Find => "find".to_string(),
        ToolWork::Restore(path) => format!("restore {}", path),
        ToolWork::List => "list".to_string(),
        ToolWork::Remove(path) => format!("remove {}", path),
        ToolWork::Delete => "delete".to_string(),
    }
}

fn calls(tool: &str, arguments: &str, events: Vec<ToolEvent>) -> Vec<String> {
    let request = request(tool, arguments);
    let fresh = "0123456789ab".to_string();
    let (mut s, work) = dispatch(&request);
    let mut out = vec![shown(&work)];
    for e in events {
        match dispatch_next(&request, &fresh, s, e) {
            ToolNext::Do(next, work) => {
                s = next;
                out.push(shown(&work));
            }
            ToolNext::Answer(j) => {
                let text = j.pointer_text(&vec!["content", "0", "text"]);
                out.push(if j.get("isError").is_some() { format!("error: {}", text) } else { text });
                return out;
            }
        }
    }
    out
}

fn ran(stdout: &str) -> ExecutionResult {
    ExecutionResult {
        stdout: stdout.to_string(),
        result: None,
        error: None,
        duration_ms: 3,
        plots: vec![],
        html: None,
        output_tokens: 0,
        state_tokens: 0,
    }
}

fn found() -> Option<CheckpointInfo> {
    Some(CheckpointInfo {
        id: "c1".to_string(),
        api_key: "k".to_string(),
        name: "first".to_string(),
        path: "/p".to_string(),
        created_at: "then".to_string(),
        size_bytes: 14,
    })
}

fn created() -> ToolEvent {
    ToolEvent::Setup(SetupEvent::Created(Ok(SessionInfo {
        session_id: "s1".to_string(),
        created_at: Timestamp { secs: 0, nanos: 0 },
        expires_at: Timestamp { secs: 900, nanos: 0 },
        workspace_path: "/w".to_string(),
        calls_used: 0,
        template: None,
    })))
}

#[test]
fn calls_that_create_a_session() {
    assert_eq!(
        calls(
            "create_session",
            "{\"packages\":[\"a\"],\"checkpoint_id\":\"c1\"}",
            vec![
                created(),
                ToolEvent::Setup(SetupEvent::Installed(None)),
                ToolEvent::Setup(SetupEvent::Found(found())),
                ToolEvent::Setup(SetupEvent::Restored(Some((vec!["x".to_string(), "y".to_string()], None)))),
            ]
        ),
        vec![
            "create",
            "install in s1",
            "find c1",
            "restore s1 /p",
            "Session created.\nsession_id: s1\nexpires_at: 1970-01-01 00:15:00 UTC\nRestored checkpoint 'first': 2 vars (x, y)"
        ]
    );
    let failed = calls("create_session", "{}", vec![ToolEvent::Setup(SetupEvent::Created(Err("no".to_string())))]);
    assert_eq!(failed[1], "error: Failed to create session: no");
}

#[test]
fn calls_that_use_a_session() {
    let s = "{\"session_id\":\"s1\",\"code\":\"x\",\"packages\":[\"a\",\"b\"]}";
    assert_eq!(
        calls("execute_code", s, vec![ToolEvent::Ran(Attempt::Ran(ran("hi\n")))]),
        vec!["execute", "stdout:\nhi\n\nduration: 3ms"]
    );
    assert_eq!(
        calls("execute_code", s, vec![ToolEvent::Ran(Attempt::NoSession)])[1],
        "error: Session 's1' not found or expired"
    );
    assert_eq!(
        calls("install_packages", s, vec![ToolEvent::Installed(Some(ran(" ok ")))]),
        vec!["install", "Installed: a, b\n\nok"]
    );
    assert_eq!(calls("install_packages", s, vec![ToolEvent::Installed(None)])[1], "error: Session not found");
    let status = SessionStatus { active: true, ttl_remaining: 7, calls_used: 2, session_id: "s1".to_string() };
    assert_eq!(
        calls("session_status", s, vec![ToolEvent::Told(Some(status))]),
        vec!["get status", "session_id: s1\nactive: true\nttl_remaining: 7s\ncalls_used: 2"]
    );
    assert_eq!(calls("terminate_session", s, vec![ToolEvent::Ended(true)]), vec!["end", "Session 's1' terminated."]);
    // what does not belong to a call changes nothing
    assert_eq!(calls("terminate_session", s, vec![ToolEvent::Deleted(true), created()]), vec!["end", "wait", "wait"]);
}

#[test]
fn calls_that_submit_a_job() {
    let s = "{\"session_id\":\"s1\",\"code\":\"x\"}";
    let submitted = |found, stored| {
        calls("submit_job", s, vec![ToolEvent::Sought(found), ToolEvent::JobStored(stored), ToolEvent::JobStarted])
    };
    assert_eq!(
        submitted(true, Ok(())),
        vec![
            "seek",
            "store job",
            "start job",
            "Job submitted.\njob_id: 0123456789ab\nstatus: queued\n\nUse get_job to poll for results."
        ]
    );
    assert_eq!(submitted(false, Ok(())), vec!["seek", "error: Session not found"]);
    assert_eq!(submitted(true, Err("db".to_string())), vec!["seek", "store job", "error: Failed to create job: db"]);
    let job = JobRecord {
        id: "j".to_string(),
        session_id: "s1".to_string(),
        api_key: "k".to_string(),
        status: "queued".to_string(),
        code: "x".to_string(),
        stdout: None,
        result: None,
        error: None,
        plots: vec![],
        html: None,
        webhook_url: None,
        created_at: "t".to_string(),
        started_at: None,
        finished_at: None,
        duration_ms: None,
    };
    assert_eq!(
        calls("get_job", "{\"job_id\":\"j\"}", vec![ToolEvent::Got(Some(job))]),
        vec!["get job", "job_id: j\n\nstatus: queued"]
    );
}

#[test]
fn calls_on_checkpoints() {
    let s = "{\"session_id\":\"s1\",\"checkpoint_id\":\"c1\"}";
    let saved = |attempt, stored| calls("create_checkpoint", s, vec![ToolEvent::Saved(attempt), ToolEvent::Recorded(stored)]);
    assert_eq!(
        saved(Attempt::Ran((5, None)), Ok(())),
        vec![
            "save",
            "record checkpoint-01234567 5",
            "Checkpoint saved.\ncheckpoint_id: 0123456789ab\nname: checkpoint-01234567\nsize: 5 bytes"
        ]
    );
    assert_eq!(saved(Attempt::Ran((5, Some("e".to_string()))), Ok(()))[1], "error: Checkpoint failed: e");
    assert_eq!(saved(Attempt::Busy, Ok(()))[1], "error: Session is busy");
    assert_eq!(saved(Attempt::Ran((5, None)), Err("db".to_string()))[2], "error: Failed to save checkpoint record: db");
    assert_eq!(
        calls(
            "restore_checkpoint",
            s,
            vec![ToolEvent::Found(found()), ToolEvent::Restored(Attempt::Ran((vec!["x".to_string()], None)))]
        ),
        vec!["find", "restore /p", "Restored 'first': 1 vars loaded (x)"]
    );
    assert_eq!(calls("restore_checkpoint", s, vec![ToolEvent::Found(None)])[1], "error: Checkpoint 'c1' not found");
    assert_eq!(calls("list_checkpoints", "{}", vec![ToolEvent::Listed(vec![])]), vec!["list", "No checkpoints saved yet."]);
    assert_eq!(
        calls("delete_checkpoint", s, vec![ToolEvent::Found(found()), ToolEvent::Removed, ToolEvent::Deleted(true)]),
        vec!["find", "remove /p", "delete", "Checkpoint 'c1' deleted."]
    );
    assert_eq!(
        calls("delete_checkpoint", s, vec![ToolEvent::Found(None), ToolEvent::Deleted(false)]),
        vec!["find", "delete", "error: Checkpoint 'c1' not found"]
    );
}
