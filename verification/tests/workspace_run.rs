use greed_compute::api::workspace::WorkspaceRecord;
use greed_compute::api::workspace_run::{
    delete_begin, delete_next, run_begin, run_next, DeleteEvent, DeleteWork, RunEvent, RunPlan, RunWork,
};
use greed_compute::http::{Next, Response};
use greed_compute::json::print_json;
use greed_compute::runtime::ExecutionResult;

fn shown(r: Response) -> String {
    match r {
        Response::Json(c, j) => format!("{} {}", c, print_json(&j)),
        Response::Text(c, s) => format!("{} {}", c, s),
        Response::Status(c) => format!("{}", c),
        Response::Redirect(s) => s,
    }
}

fn record(saved: Option<&str>) -> WorkspaceRecord {
    WorkspaceRecord {
        id: "w1".to_string(),
        name: "n".to_string(),
        owner_api_key: "k".to_string(),
        created_at: "t0".to_string(),
        last_accessed_at: "t1".to_string(),
        checkpoint_path: saved.map(|s| s.to_string()),
    }
}

fn ran() -> RunEvent {
    RunEvent::Ran(
        ExecutionResult {
            stdout: "o".to_string(),
            result: Some("[1]".to_string()),
            error: None,
            duration_ms: 1,
            plots: vec![],
            html: None,
            output_tokens: 0,
            state_tokens: 0,
        },
        9,
    )
}

fn run_work(w: &RunWork) -> String {
    match w {
        RunWork::Wait => "wait".to_string(),
        RunWork::CheckAccess => "check".to_string(),
        RunWork::Load => "load".to_string(),
        RunWork::Look => "look".to_string(),
        RunWork::MakeDir(d) => format!("make {}", d),
        RunWork::Spawn(d) => format!("spawn {}", d),
        RunWork::Probe(p) => format!("probe {}", p),
        RunWork::Restore(c) => format!("restore {}", c.contains("\"/c/ws-w1.dill\", 'rb'")),
        RunWork::File => "file".to_string(),
        RunWork::Execute => "execute".to_string(),
        RunWork::Save(c) => format!("save {}", c.contains("\"/c/ws-w1.dill\", 'wb'")),
        RunWork::Note(p) => format!("note {}", p),
    }
}

fn runs(events: Vec<RunEvent>) -> Vec<String> {
    let plan = RunPlan { workspace_id: "w1".to_string(), temp_dir: "/t".to_string(), checkpoint_dir: "/c".to_string() };
    let (mut s, work) = run_begin();
    let mut out = vec![run_work(&work)];
    for e in events {
        match run_next(&plan, s, e) {
            Next::Do(next, work) => {
                s = next;
                out.push(run_work(&work));
            }
            Next::Answer(r) => {
                out.push(shown(r));
                return out;
            }
        }
    }
    out
}

#[test]
fn executions_are_saved() {
    let told = "200 {\"duration_ms\":9,\"error\":null,\"result\":[1],\"stdout\":\"o\"}";
    let all = runs(vec![
        RunEvent::Accessible(true),
        RunEvent::Loaded(Some(record(None))),
        RunEvent::Live(true),
        ran(),
        RunEvent::Saved,
        RunEvent::Noted,
    ]);
    assert_eq!(all, vec!["check", "load", "look", "execute", "save true", "note /c/ws-w1.dill", told]);
}

#[test]
fn saved_states_are_restored() {
    let boot = |saved, there| {
        runs(vec![
            RunEvent::Accessible(true),
            RunEvent::Loaded(Some(record(saved))),
            RunEvent::Live(false),
            RunEvent::DirMade(Ok(())),
            RunEvent::Spawned(Ok(())),
            RunEvent::Exists(there),
            RunEvent::Restored,
            RunEvent::Filed,
        ])
    };
    let start = ["check", "load", "look", "make /t/greed-compute/workspaces/w1", "spawn /t/greed-compute/workspaces/w1"];
    let mut all: Vec<String> = start.iter().map(|s| s.to_string()).collect();
    all.extend(["probe /c/ws-w1.dill", "restore true", "file", "execute"].iter().map(|s| s.to_string()));
    assert_eq!(boot(Some("/c/ws-w1.dill"), true), all);
    // a file that is gone is not restored, and a new workspace has none
    assert_eq!(boot(Some("/c/ws-w1.dill"), false)[5..].to_vec(), vec!["probe /c/ws-w1.dill", "file", "wait", "execute"]);
    assert_eq!(boot(None, true)[5..].to_vec(), vec!["file", "wait", "wait", "execute"]);
}

#[test]
fn executions_that_do_not_run() {
    assert_eq!(runs(vec![RunEvent::Accessible(false)]), vec!["check", "404 workspace not found"]);
    assert_eq!(
        runs(vec![RunEvent::Accessible(true), RunEvent::Loaded(None)]),
        vec!["check", "load", "404 workspace not found"]
    );
    let failing = |last: RunEvent, made: RunEvent| {
        runs(vec![RunEvent::Accessible(true), RunEvent::Loaded(Some(record(None))), RunEvent::Live(false), made, last])
    };
    assert_eq!(failing(RunEvent::Saved, RunEvent::DirMade(Err("full".to_string()))).last().unwrap(), "500 full");
    assert_eq!(failing(RunEvent::Spawned(Err("no".to_string())), RunEvent::DirMade(Ok(()))).last().unwrap(), "500 no");
    // what does not belong changes nothing
    assert_eq!(runs(vec![RunEvent::Live(true), ran(), RunEvent::Noted]), vec!["check", "wait", "wait", "wait"]);
}

fn deletes(events: Vec<DeleteEvent>) -> Vec<String> {
    let show = |w: &DeleteWork| match w {
        DeleteWork::Wait => "wait".to_string(),
        DeleteWork::CheckOwner => "check".to_string(),
        DeleteWork::End => "end".to_string(),
        DeleteWork::Wipe(d) => format!("wipe {}", d),
        DeleteWork::Load => "load".to_string(),
        DeleteWork::Remove(p) => format!("remove {}", p),
        DeleteWork::Delete => "delete".to_string(),
    };
    let (mut s, work) = delete_begin();
    let mut out = vec![show(&work)];
    for e in events {
        match delete_next("/t", "w1", s, e) {
            Next::Do(next, work) => {
                s = next;
                out.push(show(&work));
            }
            Next::Answer(r) => {
                out.push(shown(r));
                return out;
            }
        }
    }
    out
}

#[test]
fn owners_delete_workspaces() {
    let all = deletes(vec![
        DeleteEvent::Owner(true),
        DeleteEvent::Ended(true),
        DeleteEvent::Wiped,
        DeleteEvent::Loaded(Some(record(Some("/c/x")))),
        DeleteEvent::Removed,
        DeleteEvent::Deleted(true),
    ]);
    assert_eq!(all, vec!["check", "end", "wipe /t/greed-compute/workspaces/w1", "load", "remove /c/x", "delete", "204"]);
    let bare = deletes(vec![
        DeleteEvent::Owner(true),
        DeleteEvent::Ended(false),
        DeleteEvent::Loaded(Some(record(None))),
        DeleteEvent::Deleted(false),
    ]);
    assert_eq!(bare, vec!["check", "end", "load", "delete", "404 workspace not found"]);
    assert_eq!(
        deletes(vec![DeleteEvent::Owner(false)]),
        vec!["check", "403 only the owner can delete a workspace"]
    );
    assert_eq!(deletes(vec![DeleteEvent::Deleted(true), DeleteEvent::Wiped]), vec!["check", "wait", "wait"]);
}
