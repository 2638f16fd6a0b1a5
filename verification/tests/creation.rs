use greed_compute::clock::Timestamp;
use greed_compute::creation::{
    creation_begin, creation_error, creation_next, CreationEvent, CreationFailure, CreationState, CreationWork,
};
use greed_compute::ident::new_id;
use greed_compute::sandbox::{Acquired, NewSession, SessionInfo, SessionManager};

fn info() -> SessionInfo {
    SessionManager::new("w".to_string(), "p".to_string()).create_session_at(
        NewSession {
            session_id: new_id(),
            workspace: "/w".to_string(),
            runtime: 1,
            ttl_secs: None,
            api_key: None,
            template: None,
            token_tracking: true,
        },
        Timestamp { secs: 0, nanos: 0 },
    )
}

/// The works that follow some events, by their names.
fn works(template: bool, events: Vec<CreationEvent>) -> Vec<String> {
    let (mut s, first) = creation_begin();
    let mut list = vec![named(&first)];
    for e in events {
        let (next, work) = creation_next(template, s, e);
        list.push(named(&work));
        s = next;
    }
    list
}

fn named(w: &CreationWork) -> String {
    match w {
        CreationWork::Wait => "wait".to_string(),
        CreationWork::MakeWorkspace => "make".to_string(),
        CreationWork::Acquire => "acquire".to_string(),
        CreationWork::Clear(h) => format!("clear {}", h),
        CreationWork::Refill => "refill".to_string(),
        CreationWork::Spawn => "spawn".to_string(),
        CreationWork::Install(h, code) => format!("install {} {}", h, code),
        CreationWork::File(h) => format!("file {}", h),
        CreationWork::Done(_) => "done".to_string(),
        CreationWork::Fail(f) => creation_error(f),
    }
}

#[test]
fn waiting_workers_are_cleared() {
    let events = || {
        vec![
            CreationEvent::WorkspaceMade,
            CreationEvent::Acquired(Acquired::Warm(4)),
            CreationEvent::Cleared,
        ]
    };
    let mut plain = events();
    plain.push(CreationEvent::Filed(info()));
    assert_eq!(works(false, plain), vec!["make", "acquire", "clear 4", "file 4", "done"]);
    let mut templated = events();
    templated.push(CreationEvent::Refilled);
    templated.push(CreationEvent::Filed(info()));
    assert_eq!(works(true, templated), vec!["make", "acquire", "clear 4", "refill", "file 4", "done"]);
}

#[test]
fn new_workers_are_prepared() {
    let plain = vec![
        CreationEvent::WorkspaceMade,
        CreationEvent::Acquired(Acquired::Cold(None)),
        CreationEvent::Spawned(7),
    ];
    assert_eq!(works(false, plain), vec!["make", "acquire", "spawn", "file 7"]);
    let templated = vec![
        CreationEvent::WorkspaceMade,
        CreationEvent::Acquired(Acquired::Cold(Some("pip".to_string()))),
        CreationEvent::Spawned(7),
        CreationEvent::Installed,
    ];
    assert_eq!(works(true, templated), vec!["make", "acquire", "spawn", "install 7 pip", "file 7"]);
}

#[test]
fn creations_that_fail() {
    assert_eq!(
        works(false, vec![CreationEvent::WorkspaceFailed("full".to_string())]),
        vec!["make", "Failed to create workspace directory: full"]
    );
    let no_worker = vec![
        CreationEvent::WorkspaceMade,
        CreationEvent::Acquired(Acquired::Cold(None)),
        CreationEvent::SpawnFailed("no python".to_string()),
        CreationEvent::Spawned(1),
    ];
    assert_eq!(works(false, no_worker), vec!["make", "acquire", "spawn", "no python", "wait"]);
    // nothing is filed before its workspace is made
    let early = vec![CreationEvent::Spawned(1), CreationEvent::Acquired(Acquired::Warm(1)), CreationEvent::Cleared];
    assert_eq!(works(false, early), vec!["make", "wait", "wait", "wait"]);
    let (s, _) = creation_next(false, CreationState::Filing, CreationEvent::Filed(info()));
    assert!(matches!(s, CreationState::Over));
    assert_eq!(creation_error(&CreationFailure::NoWorker("e".to_string())), "e");
}
