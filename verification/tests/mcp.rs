use greed_compute::api::mcp::{
    call_reply, create_checkpoint_reply, create_session_reply, delete_checkpoint_reply, execute_code_reply, get_job_reply,
    install_packages_reply, job_webhook, list_checkpoints_reply, mcp_handler, mcp_key, note_of_restore, parse_tool, refused_reply,
    restore_checkpoint_reply, session_status_reply, submit_job_reply, terminate_session_reply, tool_list, unknown_key_reply, McpStep,
    Submission, ToolRequest,
};
use greed_compute::clock::Timestamp;
use greed_compute::db::{CheckpointInfo, JobRecord};
use greed_compute::http::Response;
use greed_compute::json::{parse_json, print_json, Json};
use greed_compute::runtime::ExecutionResult;
use greed_compute::sandbox::{Attempt, SessionInfo, SessionStatus};

fn value(text: &str) -> Json {
    match parse_json(text.as_bytes()) {
        Ok(j) => j,
        Err(e) => panic!("{}", e),
    }
}

fn said(j: &Json) -> (String, bool) {
    let t = j.pointer_text(&vec!["content", "0", "text"]);
    assert_eq!(j.pointer_text(&vec!["content", "0", "type"]), "text");
    (t, j.get("isError").is_some())
}

fn good(s: &str) -> (String, bool) {
    (s.to_string(), false)
}

fn bad(s: &str) -> (String, bool) {
    (s.to_string(), true)
}

fn execution(stdout: &str) -> ExecutionResult {
    ExecutionResult {
        stdout: stdout.to_string(),
        result: None,
        error: None,
        duration_ms: 3,
        plots: vec![],
        html: None,
        output_tokens: 0,
        state_tokens: 0,
    }
}

fn checkpoint() -> CheckpointInfo {
    CheckpointInfo {
        id: "c1".to_string(),
        api_key: "k".to_string(),
        name: "first".to_string(),
        path: "/p".to_string(),
        created_at: "then".to_string(),
        size_bytes: 14,
    }
}

fn reply(body: &str, key: &str) -> (u16, String) {
    match mcp_handler(body.as_bytes(), key) {
        McpStep::Reply(Response::Json(c, j)) => (c, print_json(&j)),
        _ => panic!("no reply"),
    }
}

const TOOLS: [&str; 11] = [
    "create_session",
    "execute_code",
    "install_packages",
    "submit_job",
    "get_job",
    "session_status",
    "terminate_session",
    "create_checkpoint",
    "restore_checkpoint",
    "list_checkpoints",
    "delete_checkpoint",
];

#[test]
fn tools_are_listed() {
    let j = tool_list();
    for (i, name) in TOOLS.iter().enumerate() {
        let n = i.to_string();
        assert_eq!(&j.pointer_text(&vec!["tools", &n, "name"]), name);
    }
    assert!(j.pointer(&vec!["tools", "11"]).is_none());
    let one = |i: &str| print_json(j.pointer(&vec!["tools", i]).unwrap());
    assert_eq!(
        one("9"),
        "{\"description\":\"List all saved checkpoints for this API key.\",\"inputSchema\":{\"properties\":{},\"type\":\"object\"},\"name\":\"list_checkpoints\"}"
    );
    assert_eq!(
        one("2"),
        "{\"description\":\"pip install packages into a session. GPU-heavy libraries (torch, tensorflow, jax) are blocked.\",\"inputSchema\":{\"properties\":{\"packages\":{\"items\":{\"type\":\"string\"},\"type\":\"array\"},\"session_id\":{\"type\":\"string\"}},\"required\":[\"session_id\",\"packages\"],\"type\":\"object\"},\"name\":\"install_packages\"}"
    );
    assert_eq!(
        one("0"),
        "{\"description\":\"Create a new Python execution session. Returns session_id. Sessions last 15 minutes and auto-renew on each execution.\",\"inputSchema\":{\"properties\":{\"checkpoint_id\":{\"description\":\"Optional: restore a saved checkpoint on startup.\",\"type\":\"string\"},\"packages\":{\"description\":\"Optional: pip install these packages before the session is ready.\",\"items\":{\"type\":\"string\"},\"type\":\"array\"}},\"type\":\"object\"},\"name\":\"create_session\"}"
    );
    assert!(one("3").contains("\"webhook_url\":{\"description\":\"Optional URL to POST results to when done.\",\"type\":\"string\"}"));
}

#[test]
fn tools_want_their_arguments() {
    let missing = |tool: &str, args: &str| match parse_tool(tool, &value(args)) {
        Ok(_) => panic!("taken"),
        Err(e) => e,
    };
    for tool in TOOLS {
        if tool != "create_session" && tool != "list_checkpoints" {
            assert!(missing(tool, "{}").starts_with("Missing "));
            assert!(missing(tool, "null").starts_with("Missing "));
        }
    }
    assert_eq!(missing("execute_code", "{\"code\":\"1\"}"), "Missing session_id");
    assert_eq!(missing("execute_code", "{\"session_id\":\"s\"}"), "Missing code");
    assert_eq!(missing("execute_code", "{\"session_id\":\"s\",\"code\":1}"), "Missing code");
    assert_eq!(missing("install_packages", "{\"session_id\":\"s\",\"packages\":\"numpy\"}"), "Missing packages");
    assert_eq!(missing("restore_checkpoint", "{\"session_id\":\"s\"}"), "Missing checkpoint_id");
    assert_eq!(missing("get_job", "{}"), "Missing job_id");
    assert_eq!(missing("delete_checkpoint", "{}"), "Missing checkpoint_id");
    assert_eq!(missing("sing", "{}"), "Unknown tool: sing");
    assert_eq!(missing("", "{}"), "Unknown tool: ");
    assert_eq!(said(&refused_reply("Missing code")), bad("Missing code"));
}

#[test]
fn tools_are_called() {
    let call = |tool: &str, args: &str| match parse_tool(tool, &value(args)) {
        Ok(q) => q,
        Err(e) => panic!("{}", e),
    };
    match call("create_session", "{\"ttl_seconds\":-2,\"packages\":[\"a\",3],\"checkpoint_id\":\"c\"}") {
        ToolRequest::CreateSession { ttl, install, restore } => {
            assert_eq!(ttl, Some(-2));
            assert_eq!(install, Some(vec!["a".to_string()]));
            assert_eq!(restore, Some("c".to_string()));
        }
        _ => panic!("other call"),
    }
    assert!(matches!(
        call("create_session", "null"),
        ToolRequest::CreateSession { ttl: None, install: None, restore: None }
    ));
    assert!(matches!(
        call("execute_code", "{\"session_id\":\"s\",\"code\":\"c\"}"),
        ToolRequest::ExecuteCode { session_id, code } if session_id == "s" && code == "c"
    ));
    assert!(matches!(
        call("install_packages", "{\"session_id\":\"s\",\"packages\":[]}"),
        ToolRequest::InstallPackages { packages, .. } if packages.is_empty()
    ));
    assert!(matches!(
        call("submit_job", "{\"session_id\":\"s\",\"code\":\"c\",\"webhook_url\":\"u\"}"),
        ToolRequest::SubmitJob { webhook_url: Some(u), .. } if u == "u"
    ));
    assert!(matches!(call("get_job", "{\"job_id\":\"j\"}"), ToolRequest::GetJob { job_id } if job_id == "j"));
    assert!(matches!(call("session_status", "{\"session_id\":\"s\"}"), ToolRequest::SessionStatus { .. }));
    assert!(matches!(call("terminate_session", "{\"session_id\":\"s\"}"), ToolRequest::TerminateSession { .. }));
    assert!(matches!(
        call("create_checkpoint", "{\"session_id\":\"s\",\"name\":\"n\"}"),
        ToolRequest::CreateCheckpoint { name: Some(n), .. } if n == "n"
    ));
    assert!(matches!(
        call("restore_checkpoint", "{\"session_id\":\"s\",\"checkpoint_id\":\"c\"}"),
        ToolRequest::RestoreCheckpoint { checkpoint_id, .. } if checkpoint_id == "c"
    ));
    assert!(matches!(call("list_checkpoints", "{}"), ToolRequest::ListCheckpoints));
    assert!(matches!(call("delete_checkpoint", "{\"checkpoint_id\":\"c\"}"), ToolRequest::DeleteCheckpoint { .. }));
}

#[test]
fn reply_of_create_session() {
    let info = SessionInfo {
        session_id: "s1".to_string(),
        created_at: Timestamp { secs: 0, nanos: 0 },
        expires_at: Timestamp { secs: 900, nanos: 500_000_000 },
        calls_used: 0,
        workspace_path: "/w".to_string(),
        template: None,
    };
    assert_eq!(
        said(&create_session_reply(&Ok(info), "\nnote")),
        good("Session created.\nsession_id: s1\nexpires_at: 1970-01-01 00:15:00.500 UTC\nnote")
    );
    assert_eq!(
        said(&create_session_reply(&Err("no worker".to_string()), "")),
        bad("Failed to create session: no worker")
    );
}

#[test]
fn notes_of_a_restore() {
    let id = Some("c1".to_string());
    let c = checkpoint();
    assert_eq!(note_of_restore(&None, None, &None), "");
    assert_eq!(note_of_restore(&id, None, &None), "\nWarning: checkpoint 'c1' not found");
    assert_eq!(note_of_restore(&id, Some(&c), &None), "");
    assert_eq!(
        note_of_restore(&id, Some(&c), &Some((vec![], Some("bad".to_string())))),
        "\nWarning: checkpoint restore failed: bad"
    );
    assert_eq!(
        note_of_restore(&id, Some(&c), &Some((vec!["x".to_string(), "y".to_string()], None))),
        "\nRestored checkpoint 'first': 2 vars (x, y)"
    );
}

#[test]
fn reply_of_execute_code() {
    assert_eq!(said(&execute_code_reply("s", &Attempt::NoSession)), bad("Session 's' not found or expired"));
    assert_eq!(said(&execute_code_reply("s", &Attempt::Busy)), bad("Session is busy — another execution is running"));
    assert_eq!(said(&execute_code_reply("s", &Attempt::Ran(execution("")))), good("(no output)\n\nduration: 3ms"));
    let mut x = execution("hello \n\n");
    x.result = Some("42".to_string());
    x.html = Some("<t>".to_string());
    x.plots = vec!["a".to_string(), "b".to_string()];
    x.error = Some("Traceback".to_string());
    assert_eq!(
        said(&execute_code_reply("s", &Attempt::Ran(x))),
        good("stdout:\nhello\n\nresult: 42\n\n[DataFrame — HTML table in html field]\n\n[2 plot(s) captured]\n\nerror:\nTraceback\n\nduration: 3ms")
    );
}

#[test]
fn reply_of_install_packages() {
    let p = vec!["a".to_string(), "b".to_string()];
    assert_eq!(said(&install_packages_reply(&p, None)), bad("Session not found"));
    let mut x = execution(" done \n");
    assert_eq!(said(&install_packages_reply(&p, Some(&x))), good("Installed: a, b\n\ndone"));
    x.error = Some("blocked".to_string());
    assert_eq!(said(&install_packages_reply(&p, Some(&x))), bad("Install failed: blocked\n done \n"));
}

#[test]
fn replies_on_jobs() {
    assert_eq!(said(&submit_job_reply(&Submission::NoSession)), bad("Session not found"));
    assert_eq!(said(&submit_job_reply(&Submission::Failed("disk".to_string()))), bad("Failed to create job: disk"));
    assert_eq!(
        said(&submit_job_reply(&Submission::Queued("j1".to_string()))),
        good("Job submitted.\njob_id: j1\nstatus: queued\n\nUse get_job to poll for results.")
    );
    let mut j = JobRecord {
        id: "j1".to_string(),
        session_id: "s".to_string(),
        api_key: "k".to_string(),
        status: "done".to_string(),
        code: "1".to_string(),
        stdout: Some("0\n1\n".to_string()),
        result: None,
        error: None,
        plots: vec![],
        html: None,
        webhook_url: None,
        created_at: "t".to_string(),
        started_at: None,
        finished_at: None,
        duration_ms: Some(3001),
    };
    assert_eq!(said(&get_job_reply("j1", Some(&j))), good("job_id: j1\n\nstatus: done\n\nstdout:\n0\n1\n\nduration: 3001ms"));
    j.stdout = Some(String::new());
    j.error = Some("e".to_string());
    j.duration_ms = None;
    assert_eq!(said(&get_job_reply("j1", Some(&j))), good("job_id: j1\n\nstatus: done\n\nerror:\ne"));
    assert_eq!(said(&get_job_reply("j9", None)), bad("Job 'j9' not found"));
    let mut x = execution("out");
    x.error = Some("e".to_string());
    assert_eq!(print_json(&job_webhook("j1", &x)), "{\"error\":\"e\",\"job_id\":\"j1\",\"status\":\"done\",\"stdout\":\"out\"}");
}

#[test]
fn replies_on_sessions() {
    let s = SessionStatus { active: true, ttl_remaining: 847, calls_used: 12, session_id: "s".to_string() };
    assert_eq!(
        said(&session_status_reply("s", Some(&s))),
        good("session_id: s\nactive: true\nttl_remaining: 847s\ncalls_used: 12")
    );
    assert_eq!(said(&session_status_reply("s", None)), bad("Session 's' not found or expired"));
    assert_eq!(said(&terminate_session_reply("s", true)), good("Session 's' terminated."));
    assert_eq!(said(&terminate_session_reply("s", false)), bad("Session 's' not found"));
}

#[test]
fn replies_on_checkpoints() {
    let made = |a: Attempt<(u64, Option<String>)>, s: Result<(), String>| said(&create_checkpoint_reply("c1", "first", &a, &s));
    assert_eq!(made(Attempt::NoSession, Ok(())), bad("Session not found"));
    assert_eq!(made(Attempt::Busy, Ok(())), bad("Session is busy"));
    assert_eq!(made(Attempt::Ran((0, Some("e".to_string()))), Ok(())), bad("Checkpoint failed: e"));
    assert_eq!(made(Attempt::Ran((9, None)), Err("db".to_string())), bad("Failed to save checkpoint record: db"));
    assert_eq!(made(Attempt::Ran((9, None)), Ok(())), good("Checkpoint saved.\ncheckpoint_id: c1\nname: first\nsize: 9 bytes"));
    let c = checkpoint();
    let back = |r: Option<&CheckpointInfo>, a: Attempt<(Vec<String>, Option<String>)>| said(&restore_checkpoint_reply("c1", r, &a));
    assert_eq!(back(None, Attempt::Busy), bad("Checkpoint 'c1' not found"));
    assert_eq!(back(Some(&c), Attempt::NoSession), bad("Session not found"));
    assert_eq!(back(Some(&c), Attempt::Busy), bad("Session is busy"));
    assert_eq!(back(Some(&c), Attempt::Ran((vec![], Some("e".to_string())))), bad("Restore failed: e"));
    assert_eq!(back(Some(&c), Attempt::Ran((vec!["x".to_string()], None))), good("Restored 'first': 1 vars loaded (x)"));
    assert_eq!(said(&list_checkpoints_reply(&vec![])), good("No checkpoints saved yet."));
    assert_eq!(
        said(&list_checkpoints_reply(&vec![checkpoint(), checkpoint()])),
        good("2 checkpoint(s):\n\n• first — c1 (14 bytes, then)\n• first — c1 (14 bytes, then)")
    );
    assert_eq!(said(&delete_checkpoint_reply("c1", true)), good("Checkpoint 'c1' deleted."));
    assert_eq!(said(&delete_checkpoint_reply("c1", false)), bad("Checkpoint 'c1' not found"));
}

#[test]
fn messages_are_answered() {
    assert_eq!(
        reply("{", ""),
        (400, "{\"error\":{\"code\":-32700,\"message\":\"Parse error\"},\"id\":null,\"jsonrpc\":\"2.0\"}".to_string())
    );
    assert_eq!(reply("{\"method\":\"notifications/initialized\"}", ""), (202, "{}".to_string()));
    assert_eq!(
        reply("{\"id\":1,\"method\":\"notifications/initialized\"}", "").1,
        "{\"error\":{\"code\":-32601,\"message\":\"Method not found: notifications/initialized\"},\"id\":1,\"jsonrpc\":\"2.0\"}"
    );
    assert_eq!(
        reply("{\"id\":\"a\",\"method\":\"initialize\"}", ""),
        (
            200,
            "{\"id\":\"a\",\"jsonrpc\":\"2.0\",\"result\":{\"capabilities\":{\"tools\":{}},\"protocolVersion\":\"2024-11-05\",\"serverInfo\":{\"name\":\"greed-compute\",\"version\":\"0.1.0\"}}}"
                .to_string()
        )
    );
    let (code, list) = reply("{\"id\":2.5,\"method\":\"tools/list\"}", "");
    assert_eq!(code, 200);
    assert!(list.starts_with("{\"id\":2.5,\"jsonrpc\":\"2.0\",\"result\":{\"tools\":["));
    assert_eq!(
        reply("{\"id\":[1],\"method\":7}", ""),
        (200, "{\"error\":{\"code\":-32601,\"message\":\"Method not found: \"},\"id\":[1],\"jsonrpc\":\"2.0\"}".to_string())
    );
    assert_eq!(reply("[]", "k").0, 200);
}

#[test]
fn calls_need_a_key() {
    let call = "{\"id\":4,\"method\":\"tools/call\",\"params\":{\"name\":\"get_job\",\"arguments\":{\"job_id\":\"j\"}}}";
    let (code, text) = reply(call, "");
    assert_eq!(code, 401);
    assert!(text.contains("Missing API key — pass as x-api-key header or ?api_key= query param"));
    assert!(text.contains("\"code\":-32001"));
    match mcp_handler(call.as_bytes(), "k") {
        McpStep::Call { id, tool, arguments } => {
            assert_eq!(tool, "get_job");
            assert_eq!(print_json(&arguments), "{\"job_id\":\"j\"}");
            match unknown_key_reply(id.copy()) {
                Response::Json(c, j) => assert_eq!(
                    (c, print_json(&j)),
                    (401, "{\"error\":{\"code\":-32001,\"message\":\"Invalid API key\"},\"id\":4,\"jsonrpc\":\"2.0\"}".to_string())
                ),
                _ => panic!("no JSON"),
            }
            match call_reply(id, Json::Bool(true)) {
                Response::Json(c, j) => {
                    assert_eq!((c, print_json(&j)), (200, "{\"id\":4,\"jsonrpc\":\"2.0\",\"result\":true}".to_string()))
                }
                _ => panic!("no JSON"),
            }
        }
        _ => panic!("no call"),
    }
    match mcp_handler(b"{\"method\":\"tools/call\"}", "k") {
        McpStep::Call { id, tool, arguments } => {
            assert_eq!((print_json(&id), tool.as_str(), print_json(&arguments)), ("null".to_string(), "", "null".to_string()))
        }
        _ => panic!("no call"),
    }
}

#[test]
fn keys_of_messages() {
    let h = || Some("h".to_string());
    let q = || Some("q".to_string());
    assert_eq!(mcp_key(h(), q()), "h");
    assert_eq!(mcp_key(None, q()), "q");
    assert_eq!(mcp_key(None, None), "");
}
