use greed_compute::api::swarm::WorkerEnd;
use greed_compute::api::swarm_run::{
    launch_begin, launch_next, swarm_begin, swarm_next, swarm_over, template_answer, template_begin, template_next, worker_begin, worker_next,
    LaunchEvent, LaunchState, LaunchWork, Phase,
    SwarmEvent, SwarmState, SwarmWork, TemplateEvent, TemplateRefusal, TemplateState, TemplateWork, WorkerEvent, WorkerState,
    WorkerWork,
};
use greed_compute::http::Response;
use greed_compute::json::print_json;
use greed_compute::runtime::ExecutionResult;

fn ran(result: Option<&str>, error: Option<&str>) -> ExecutionResult {
    ExecutionResult {
        stdout: String::new(),
        result: result.map(|s| s.to_string()),
        error: error.map(|s| s.to_string()),
        duration_ms: 1,
        plots: vec![],
        html: None,
        output_tokens: 0,
        state_tokens: 0,
    }
}

fn shown(works: &Vec<SwarmWork>) -> Vec<String> {
    works
        .iter()
        .map(|w| match w {
            SwarmWork::StartWorker(i) => format!("start {}", i),
            SwarmWork::OpenReducer => "open".to_string(),
            SwarmWork::Store(i, d) => format!("store {} {:?}", i, d.result),
            SwarmWork::Reduce(code) => format!("reduce {}", code.lines().last().unwrap()),
            SwarmWork::CloseReducer => "close".to_string(),
            SwarmWork::Finish => "finish".to_string(),
        })
        .collect()
}

fn ended(index: usize, result: &str, now: u64) -> SwarmEvent {
    SwarmEvent::WorkerEnded {
        index,
        end: WorkerEnd::Ran(ran(Some(result), None)),
        elapsed_ms: 5,
        stored_index: index as u64,
        now,
    }
}

fn step(s: SwarmState, e: SwarmEvent) -> (SwarmState, Vec<String>) {
    let (s, works) = swarm_next(s, e);
    (s, shown(&works))
}

fn template(s: TemplateState, e: TemplateEvent) -> (TemplateState, TemplateWork) {
    template_next(s, e)
}

#[test]
fn template_is_saved() {
    let (s, w) = template_begin();
    assert!(matches!(w, TemplateWork::CreateSession));
    let (s, w) = template(s, TemplateEvent::Created(Some("t".to_string())));
    assert!(matches!(w, TemplateWork::Execute(id) if id == "t"));
    let (s, w) = template(s, TemplateEvent::Ran(ran(None, None)));
    assert!(matches!(w, TemplateWork::Save(id) if id == "t"));
    let (s, w) = template(s, TemplateEvent::Saved(9, None));
    assert!(matches!(w, TemplateWork::EndSession(id) if id == "t"));
    let (s, w) = template(s, TemplateEvent::Ended);
    assert!(matches!(w, TemplateWork::Store(9)));
    let (s, w) = template(s, TemplateEvent::Stored(true));
    assert!(matches!(w, TemplateWork::Ready));
    assert!(matches!(s, TemplateState::Over));
    let (_, w) = template(s, TemplateEvent::Ended);
    assert!(matches!(w, TemplateWork::Wait));
}

#[test]
fn templates_that_fail() {
    let open = || template(template_begin().0, TemplateEvent::Created(Some("t".to_string()))).0;
    let refused = |w: TemplateWork| match w {
        TemplateWork::Refuse(r) => match template_answer(r) {
            Response::Json(c, j) => (c, print_json(&j)),
            Response::Status(c) => (c, String::new()),
            _ => panic!("other answer"),
        },
        _ => panic!("not refused"),
    };
    let internal = (500, String::new());
    assert_eq!(refused(template(template_begin().0, TemplateEvent::Created(None)).1), internal);
    assert_eq!(refused(template(open(), TemplateEvent::Gone).1), internal);
    let (s, w) = template(open(), TemplateEvent::Ran(ran(None, Some("boom"))));
    assert!(matches!(w, TemplateWork::EndSession(_)));
    assert_eq!(
        refused(template(s, TemplateEvent::Ended).1),
        (200, "{\"detail\":\"boom\",\"error\":\"template_code failed\"}".to_string())
    );
    let saving = || template(open(), TemplateEvent::Ran(ran(None, None))).0;
    let (s, w) = template(saving(), TemplateEvent::Saved(0, Some("full".to_string())));
    assert!(matches!(w, TemplateWork::EndSession(_)));
    assert_eq!(
        refused(template(s, TemplateEvent::Ended).1),
        (200, "{\"detail\":\"full\",\"error\":\"template checkpoint failed\"}".to_string())
    );
    let (s, _) = template(saving(), TemplateEvent::Saved(3, None));
    let (s, _) = template(s, TemplateEvent::Ended);
    assert_eq!(refused(template(s, TemplateEvent::Stored(false)).1), internal);
    assert!(matches!(template_answer(TemplateRefusal::Internal), Response::Status(500)));
}

#[test]
fn worker_runs_and_ends_its_session() {
    for with_template in [false, true] {
        let (s, w) = worker_begin();
        assert!(matches!(w, WorkerWork::CreateSession));
        let (s, w) = worker_next(s, WorkerEvent::Created(Ok("a".to_string())), with_template);
        assert!(matches!(w, WorkerWork::Look(id) if id == "a"));
        let (mut s, mut w) = worker_next(s, WorkerEvent::Found(true), with_template);
        if with_template {
            assert!(matches!(w, WorkerWork::Restore(id) if id == "a"));
            (s, w) = worker_next(s, WorkerEvent::Restored, with_template);
        }
        assert!(matches!(w, WorkerWork::Execute(id) if id == "a"));
        let (s, w) = worker_next(s, WorkerEvent::Ran(ran(Some("1"), None)), with_template);
        assert!(matches!(w, WorkerWork::Report(WorkerEnd::Ran(_))));
        let (s, w) = worker_next(s, WorkerEvent::Reported, with_template);
        assert!(matches!(w, WorkerWork::EndSession(id) if id == "a"));
        let (s, w) = worker_next(s, WorkerEvent::Ended, with_template);
        assert!(matches!((s, w), (WorkerState::Over, WorkerWork::Stop)));
    }
}

#[test]
fn workers_without_a_session() {
    let (s, w) = worker_next(worker_begin().0, WorkerEvent::Created(Err("full".to_string())), true);
    assert!(matches!(w, WorkerWork::Report(WorkerEnd::NoSession(e)) if e == "full"));
    assert!(matches!(worker_next(s, WorkerEvent::Reported, true).1, WorkerWork::Stop));
    let (s, _) = worker_next(worker_begin().0, WorkerEvent::Created(Ok("a".to_string())), true);
    let (s, w) = worker_next(s, WorkerEvent::Found(false), true);
    assert!(matches!(w, WorkerWork::Report(WorkerEnd::Vanished)));
    assert!(matches!(worker_next(s, WorkerEvent::Reported, true).1, WorkerWork::Stop));
}

#[test]
fn swarm_feeds_results_as_they_come() {
    let (s, works) = swarm_begin(3, Some("total = 1".to_string()), 0);
    assert_eq!(shown(&works), vec!["start 0", "start 1", "start 2", "open"]);
    // a result that comes early waits for the reduction
    let (s, w) = step(s, ended(2, "2", 10));
    assert_eq!(w, vec!["store 2 Some(\"2\")"]);
    let (s, w) = step(s, SwarmEvent::ReducerOpened);
    assert_eq!(w, vec!["reduce total = 1"]);
    let (s, w) = step(s, ended(0, "0", 11));
    assert_eq!(w, vec!["store 0 Some(\"0\")"]);
    let (s, w) = step(s, SwarmEvent::ReducerRan(ran(None, None)));
    assert_eq!(w, vec!["reduce total = 1"]);
    let (s, w) = step(s, SwarmEvent::ReducerRan(ran(None, None)));
    assert!(w.is_empty());
    // the last worker is late and gets a backup, which wins
    let (s, w) = step(s, SwarmEvent::Tick(21));
    assert!(w.is_empty());
    let (s, w) = step(s, SwarmEvent::Tick(22));
    assert_eq!(w, vec!["start 1"]);
    let (s, w) = step(s, ended(1, "1", 30));
    assert_eq!(w, vec!["store 1 Some(\"1\")", "reduce total = 1"]);
    let (s, w) = step(s, ended(1, "again", 31));
    assert!(w.is_empty());
    let (s, w) = step(s, SwarmEvent::ReducerRan(ran(None, None)));
    assert_eq!(w, vec!["reduce total"]);
    assert!(!swarm_over(&s));
    let (s, w) = step(s, SwarmEvent::ReducerRan(ran(Some("3"), None)));
    assert_eq!(w, vec!["close", "finish"]);
    assert!(swarm_over(&s));
    assert_eq!((s.outcome.result.as_deref(), s.fed, s.results.len()), (Some("3"), 3, 3));
}

#[test]
fn swarm_with_a_captured_result_ends_at_once() {
    let (s, _) = swarm_begin(1, Some("sum(results)".to_string()), 0);
    let (s, _) = step(s, SwarmEvent::ReducerOpened);
    let (s, _) = step(s, ended(0, "0", 1));
    let (s, w) = step(s, SwarmEvent::ReducerRan(ran(Some("7"), None)));
    assert_eq!(w, vec!["close", "finish"]);
    assert_eq!(s.outcome.result.as_deref(), Some("7"));
}

#[test]
fn swarm_without_a_reduction() {
    let (s, works) = swarm_begin(2, None, 0);
    assert_eq!(shown(&works), vec!["start 0", "start 1"]);
    let (s, w) = step(s, ended(0, "0", 1));
    assert_eq!(w, vec!["store 0 Some(\"0\")"]);
    let vanished =
        SwarmEvent::WorkerEnded { index: 1, end: WorkerEnd::Vanished, elapsed_ms: 0, stored_index: 1, now: 2 };
    let (s, w) = step(s, vanished);
    assert_eq!(w, vec!["store 1 None", "finish"]);
    assert!(swarm_over(&s));
    assert_eq!(s.results.len(), 1);
}

#[test]
fn swarm_whose_reduction_has_no_session() {
    let (s, _) = swarm_begin(1, Some("r".to_string()), 0);
    let (s, w) = step(s, SwarmEvent::ReducerFailed("full".to_string()));
    assert_eq!(w, vec!["finish"]);
    assert_eq!(s.outcome.error.as_deref(), Some("Reducer session failed: full"));
    assert!(s.phase == Phase::Broken && !swarm_over(&s));
    // its workers go on
    let (s, w) = step(s, ended(0, "0", 1));
    assert_eq!(w, vec!["store 0 Some(\"0\")"]);
    assert!(swarm_over(&s));
    let (s, _) = swarm_begin(1, Some("r".to_string()), 0);
    let (s, w) = step(s, SwarmEvent::ReducerGone);
    assert_eq!((w, s.outcome.error.as_deref()), (vec!["finish".to_string()], Some("Reducer session disappeared")));
    // it can also go later
    let (s, _) = swarm_begin(1, Some("r".to_string()), 0);
    let (s, _) = step(s, SwarmEvent::ReducerOpened);
    let (s, w) = step(s, SwarmEvent::ReducerGone);
    assert!(w.is_empty() && s.phase == Phase::Idle);
    let (s, _) = step(s, ended(0, "0", 1));
    let (s, w) = step(s, SwarmEvent::ReducerGone);
    assert_eq!((w, s.outcome.error.as_deref()), (vec!["finish".to_string()], Some("Reducer session disappeared")));
    assert!(swarm_over(&s));
}

fn no_session(index: usize, now: u64) -> SwarmEvent {
    SwarmEvent::WorkerEnded {
        index,
        end: WorkerEnd::NoSession("full".to_string()),
        elapsed_ms: 5,
        stored_index: index as u64,
        now,
    }
}

#[test]
fn backup_without_a_session_does_not_count() {
    let (s, _) = swarm_begin(2, None, 0);
    let (s, _) = step(s, ended(0, "0", 10));
    let (s, w) = step(s, SwarmEvent::Tick(21));
    assert_eq!(w, vec!["start 1"]);
    // the backup gives up, and the worker goes on
    let (s, w) = step(s, no_session(1, 22));
    assert!(w.is_empty() && !swarm_over(&s));
    let (s, w) = step(s, SwarmEvent::Tick(90));
    assert!(w.is_empty());
    let (s, w) = step(s, ended(1, "1", 95));
    assert_eq!(w, vec!["store 1 Some(\"1\")", "finish"]);
    assert!(swarm_over(&s));
    // where both give up, the last counts
    let (s, _) = swarm_begin(2, None, 0);
    let (s, _) = step(s, ended(0, "0", 10));
    let (s, _) = step(s, SwarmEvent::Tick(21));
    let (s, w) = step(s, no_session(1, 22));
    assert!(w.is_empty());
    let (s, w) = step(s, no_session(1, 23));
    assert_eq!(w, vec!["store 1 None", "finish"]);
    assert!(swarm_over(&s));
}

fn launched(works: &Vec<LaunchWork>) -> Vec<String> {
    works
        .iter()
        .map(|w| match w {
            LaunchWork::Warm(i) => format!("warm {}", i),
            LaunchWork::RunTemplate => "template".to_string(),
            LaunchWork::Record => "record".to_string(),
            LaunchWork::Start => "start".to_string(),
            LaunchWork::Cool(i) => format!("cool {}", i),
            LaunchWork::Refuse(TemplateRefusal::Internal) => "refuse".to_string(),
            LaunchWork::Refuse(TemplateRefusal::CodeFailed(e)) => format!("code {}", e),
            LaunchWork::Refuse(TemplateRefusal::SaveFailed(e)) => format!("save {}", e),
        })
        .collect()
}

#[test]
fn sessions_warm_up_beside_the_template() {
    let (s, w) = launch_begin(2, true);
    assert_eq!(launched(&w), vec!["warm 0", "warm 1", "template"]);
    let (s, w) = launch_next(2, s, LaunchEvent::Recorded(true));
    assert!(w.is_empty());
    let (s, w) = launch_next(2, s, LaunchEvent::TemplateReady);
    assert_eq!(launched(&w), vec!["record"]);
    let (s, w) = launch_next(2, s, LaunchEvent::Recorded(true));
    assert_eq!(launched(&w), vec!["start"]);
    assert!(matches!(s, LaunchState::Over));
    let (s, w) = launch_begin(2, false);
    assert_eq!(launched(&w), vec!["record"]);
    let (_, w) = launch_next(2, s, LaunchEvent::Recorded(false));
    assert_eq!(launched(&w), vec!["refuse"]);
}

#[test]
fn refused_launches_leave_no_session() {
    let (s, _) = launch_begin(2, true);
    let (_, w) = launch_next(2, s, LaunchEvent::TemplateRefused(TemplateRefusal::CodeFailed("e".to_string())));
    assert_eq!(launched(&w), vec!["cool 0", "cool 1", "code e"]);
    let (s, _) = launch_begin(1, true);
    let (s, _) = launch_next(1, s, LaunchEvent::TemplateReady);
    let (_, w) = launch_next(1, s, LaunchEvent::Recorded(false));
    assert_eq!(launched(&w), vec!["cool 0", "refuse"]);
}
