use greed_compute::api::workspace::{
    create_workspace, delete_workspace, execute_in_workspace, get_workspace, invite_member, kick_member, list_workspaces,
    refuse_invitation, restore_code, save_code, workspace_checkpoint, workspace_path, LiveWorkspaces, WorkspaceMember,
    WorkspaceRecord, WorkspaceResponse,
};
use greed_compute::http::Response;
use greed_compute::json::print_json;
use greed_compute::runtime::ExecutionResult;

fn workspace(id: &str) -> WorkspaceRecord {
    WorkspaceRecord {
        id: id.to_string(),
        name: "research".to_string(),
        owner_api_key: "k".to_string(),
        created_at: "t0".to_string(),
        last_accessed_at: "t1".to_string(),
        checkpoint_path: None,
    }
}

fn answer(r: Response) -> (u16, String) {
    match r {
        Response::Json(c, j) => (c, print_json(&j)),
        Response::Text(c, s) => (c, s),
        Response::Status(c) => (c, String::new()),
        Response::Redirect(s) => (307, s),
    }
}

#[test]
fn response_from_a_record() {
    let w = workspace("w1");
    let r = WorkspaceResponse::from((&w, true));
    assert_eq!((r.id.as_str(), r.name.as_str(), r.owner_api_key.as_str()), ("w1", "research", "k"));
    assert_eq!((r.created_at.as_str(), r.last_accessed_at.as_str(), r.live), ("t0", "t1", true));
}

#[test]
fn live_workers() {
    let mut l = LiveWorkspaces::new();
    assert_eq!(l.live("w1"), None);
    l.booted("w1", 4);
    assert_eq!((l.live("w1"), l.is_live("w1"), l.is_live("w2")), (Some(4), true, false));
    l.booted("w1", 5);
    assert_eq!(l.ended("w1"), Some(5));
    assert_eq!(l.ended("w1"), None);
    assert!(!l.is_live("w1"));
}

#[test]
fn files_and_code_of_a_workspace() {
    assert_eq!(workspace_path("/tmp", "w1"), "/tmp/greed-compute/workspaces/w1");
    assert_eq!(workspace_checkpoint("/c", "w1"), "/c/ws-w1.dill");
    assert_eq!(
        restore_code("/c/a\"b"),
        "import dill as _dill\nwith open(\"/c/a\\\"b\", 'rb') as _f:\n    _ns = _dill.load(_f)\nglobals().update(_ns)\ndel _dill, _f, _ns"
    );
    assert_eq!(
        save_code("/c/x"),
        "import dill as _dill\nwith open(\"/c/x\", 'wb') as _f:\n    _dill.dump(dict(globals()), _f)\ndel _dill, _f"
    );
}

#[test]
fn workspaces_are_answered() {
    let one = "{\"created_at\":\"t0\",\"id\":\"w1\",\"last_accessed_at\":\"t1\",\"live\":false,\"name\":\"research\",\"owner_api_key\":\"k\"}";
    assert_eq!(answer(create_workspace(&Ok(workspace("w1")), false)), (200, one.to_string()));
    assert_eq!(answer(create_workspace(&Err("db".to_string()), false)), (500, "db".to_string()));
    let mut l = LiveWorkspaces::new();
    l.booted("w2", 1);
    let list = print_json(&list_workspaces(&vec![workspace("w1"), workspace("w2")], &l));
    assert!(list.starts_with(&format!("[{},", one)));
    assert!(list.contains("\"id\":\"w2\",\"last_accessed_at\":\"t1\",\"live\":true"));
    let m = || vec![WorkspaceMember { api_key: "b".to_string(), joined_at: "t2".to_string() }];
    let missing = (404, "workspace not found".to_string());
    assert_eq!(answer(get_workspace(false, Some(&workspace("w1")), &m(), true)), missing);
    assert_eq!(answer(get_workspace(true, None, &m(), true)), missing);
    assert!(answer(get_workspace(true, Some(&workspace("w1")), &m(), true))
        .1
        .contains("\"live\":true,\"members\":[{\"api_key\":\"b\",\"joined_at\":\"t2\"}]"));
}

#[test]
fn executions_in_workspaces() {
    let x = |result: Option<&str>| ExecutionResult {
        stdout: "o".to_string(),
        result: result.map(|s| s.to_string()),
        error: Some("e".to_string()),
        duration_ms: 1,
        plots: vec![],
        html: None,
        output_tokens: 0,
        state_tokens: 0,
    };
    let r = execute_in_workspace(x(Some("[1, 2]")), 9);
    assert_eq!((r.stdout.as_str(), r.error, r.duration_ms), ("o", Some("e".to_string()), 9));
    assert_eq!(r.result.map(|j| print_json(&j)), Some("[1,2]".to_string()));
    assert!(execute_in_workspace(x(Some("x y")), 9).result.is_none());
    assert!(execute_in_workspace(x(None), 9).result.is_none());
    let printed = |result| print_json(&execute_in_workspace(x(result), 9).to_json());
    assert_eq!(printed(Some("[1, 2]")), "{\"duration_ms\":9,\"error\":\"e\",\"result\":[1,2],\"stdout\":\"o\"}");
    assert_eq!(printed(None), "{\"duration_ms\":9,\"error\":\"e\",\"result\":null,\"stdout\":\"o\"}");
}

#[test]
fn members_come_and_go() {
    let refused = |o, k| refuse_invitation(o, k).map(answer);
    assert_eq!(refused(false, true), Some((403, "only the owner can invite members".to_string())));
    assert_eq!(refused(true, false), Some((400, "invited api_key not found".to_string())));
    assert!(refused(true, true).is_none());
    assert_eq!(answer(invite_member("b", &Ok(()))), (200, "{\"invited\":\"b\"}".to_string()));
    assert_eq!(answer(invite_member("b", &Err("db".to_string()))), (500, "db".to_string()));
    assert_eq!(answer(kick_member(false, "b", true)), (403, "only the owner can remove members".to_string()));
    assert_eq!(answer(kick_member(true, "b", true)), (200, "{\"removed\":\"b\"}".to_string()));
    assert_eq!(answer(kick_member(true, "b", false)), (404, "member not found or is owner".to_string()));
    assert_eq!(answer(delete_workspace(false, true)), (403, "only the owner can delete a workspace".to_string()));
    assert_eq!(answer(delete_workspace(true, true)), (204, String::new()));
    assert_eq!(answer(delete_workspace(true, false)), (404, "workspace not found".to_string()));
}
