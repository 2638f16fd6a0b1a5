//! How a session is created: which work follows which event. Its workspace comes
//! first, then a worker, and it is filed last; whoever runs this does the work and
//! hands back what came of it.
use vstd::prelude::*;
use crate::sandbox::{workspace_error, Acquired, SessionInfo};

verus! {

/// How far the creation of a session has come.
pub enum CreationState {
    /// Its workspace is being made.
    MakingWorkspace,
    /// A worker is being looked for.
    Acquiring,
    /// This waiting worker is being cleared.
    Clearing(u64),
    /// The pool that this worker came from is being filled up again.
    Refilling(u64),
    /// A worker is being started, which is to run this code first.
    Spawning(Option<String>),
    /// This new worker runs the code of the template.
    Installing(u64),
    /// The session is being filed.
    Filing,
    Over,
}

/// What happened to the creation of a session.
pub enum CreationEvent {
    WorkspaceMade,
    WorkspaceFailed(String),
    Acquired(Acquired),
    Cleared,
    /// Filling the pool up is under way.
    Refilled,
    /// A worker was started and is known by this number.
    Spawned(u64),
    SpawnFailed(String),
    /// The code of the template ran, whatever came of it.
    Installed,
    Filed(SessionInfo),
}

/// Why there is no session.
pub enum CreationFailure {
    NoWorkspace(String),
    NoWorker(String),
}

/// What is to be done for the creation of a session.
pub enum CreationWork {
    /// Nothing yet.
    Wait,
    MakeWorkspace,
    /// Take a waiting worker, or learn that there is none.
    Acquire,
    Clear(u64),
    /// Have the pool of the template filled up, without waiting for it.
    Refill,
    /// Start a worker in the workspace of the session.
    Spawn,
    /// Run this code in a worker.
    Install(u64, String),
    /// File the session with this worker.
    File(u64),
    Done(SessionInfo),
    Fail(CreationFailure),
}

/// The state and the work that follow an event, given whether there is a template.
/// An event that does not belong to the state changes nothing.
pub open spec fn creation_step(template: bool, s: CreationState, e: CreationEvent) -> (CreationState, CreationWork) {
    match (s, e) {
        (CreationState::MakingWorkspace, CreationEvent::WorkspaceMade) => (
            CreationState::Acquiring,
            CreationWork::Acquire,
        ),
        (CreationState::MakingWorkspace, CreationEvent::WorkspaceFailed(e)) => (
            CreationState::Over,
            CreationWork::Fail(CreationFailure::NoWorkspace(e)),
        ),
        (CreationState::Acquiring, CreationEvent::Acquired(Acquired::Warm(worker))) => (
            CreationState::Clearing(worker),
            CreationWork::Clear(worker),
        ),
        (CreationState::Acquiring, CreationEvent::Acquired(Acquired::Cold(install))) => (
            CreationState::Spawning(install),
            CreationWork::Spawn,
        ),
        (CreationState::Clearing(worker), CreationEvent::Cleared) => if template {
            (CreationState::Refilling(worker), CreationWork::Refill)
        } else {
            (CreationState::Filing, CreationWork::File(worker))
        },
        (CreationState::Refilling(worker), CreationEvent::Refilled) => (
            CreationState::Filing,
            CreationWork::File(worker),
        ),
        (CreationState::Spawning(install), CreationEvent::Spawned(worker)) => match install {
            Some(code) => (CreationState::Installing(worker), CreationWork::Install(worker, code)),
            None => (CreationState::Filing, CreationWork::File(worker)),
        },
        (CreationState::Spawning(_), CreationEvent::SpawnFailed(e)) => (
            CreationState::Over,
            CreationWork::Fail(CreationFailure::NoWorker(e)),
        ),
        (CreationState::Installing(worker), CreationEvent::Installed) => (
            CreationState::Filing,
            CreationWork::File(worker),
        ),
        (CreationState::Filing, CreationEvent::Filed(info)) => (CreationState::Over, CreationWork::Done(info)),
        _ => (s, CreationWork::Wait),
    }
}

/// The first state and work of a creation.
pub fn creation_begin() -> (r: (CreationState, CreationWork))
    ensures
        r == (CreationState::MakingWorkspace, CreationWork::MakeWorkspace),
{
    (CreationState::MakingWorkspace, CreationWork::MakeWorkspace)
}

/// The state and the work that follow an event, given whether there is a template.
pub fn creation_next(template: bool, s: CreationState, e: CreationEvent) -> (r: (CreationState, CreationWork))
    ensures
        r == creation_step(template, s, e),
{
    match (s, e) {
        (CreationState::MakingWorkspace, CreationEvent::WorkspaceMade) => (
            CreationState::Acquiring,
            CreationWork::Acquire,
        ),
        (CreationState::MakingWorkspace, CreationEvent::WorkspaceFailed(e)) => (
            CreationState::Over,
            CreationWork::Fail(CreationFailure::NoWorkspace(e)),
        ),
        (CreationState::Acquiring, CreationEvent::Acquired(Acquired::Warm(worker))) => (
            CreationState::Clearing(worker),
            CreationWork::Clear(worker),
        ),
        (CreationState::Acquiring, CreationEvent::Acquired(Acquired::Cold(install))) => (
            CreationState::Spawning(install),
            CreationWork::Spawn,
        ),
        (CreationState::Clearing(worker), CreationEvent::Cleared) => {
            if template {
                (CreationState::Refilling(worker), CreationWork::Refill)
            } else {
                (CreationState::Filing, CreationWork::File(worker))
            }
        },
        (CreationState::Refilling(worker), CreationEvent::Refilled) => (
            CreationState::Filing,
            CreationWork::File(worker),
        ),
        (CreationState::Spawning(install), CreationEvent::Spawned(worker)) => match install {
            Some(code) => (CreationState::Installing(worker), CreationWork::Install(worker, code)),
            None => (CreationState::Filing, CreationWork::File(worker)),
        },
        (CreationState::Spawning(_), CreationEvent::SpawnFailed(e)) => (
            CreationState::Over,
            CreationWork::Fail(CreationFailure::NoWorker(e)),
        ),
        (CreationState::Installing(worker), CreationEvent::Installed) => (
            CreationState::Filing,
            CreationWork::File(worker),
        ),
        (CreationState::Filing, CreationEvent::Filed(info)) => (CreationState::Over, CreationWork::Done(info)),
        (s, _) => (s, CreationWork::Wait),
    }
}

/// What is said of a session that could not be created.
pub fn creation_error(failure: &CreationFailure) -> (r: String)
    ensures
        r@ == match failure {
            CreationFailure::NoWorkspace(e) => "Failed to create workspace directory: "@ + e@,
            CreationFailure::NoWorker(e) => e@,
        },
{
    match failure {
        CreationFailure::NoWorkspace(e) => workspace_error(e.as_str()),
        CreationFailure::NoWorker(e) => e.clone(),
    }
}

/// The state of a creation after some events.
pub open spec fn creation_run(template: bool, events: Seq<CreationEvent>) -> (CreationState, CreationWork)
    decreases events.len(),
{
    if events.len() == 0 {
        (CreationState::MakingWorkspace, CreationWork::MakeWorkspace)
    } else {
        creation_step(template, creation_run(template, events.drop_last()).0, events.last())
    }
}

/// Whether a worker is among those that were handed to a creation.
pub open spec fn handed(events: Seq<CreationEvent>, worker: u64) -> bool {
    exists|i: int| 0 <= i < events.len() && #[trigger] hands(events[i], worker)
}

/// Whether an event hands a worker to a creation.
pub open spec fn hands(e: CreationEvent, worker: u64) -> bool {
    e == CreationEvent::Acquired(Acquired::Warm(worker)) || e == CreationEvent::Spawned(worker)
}

/// The worker that a creation has.
pub open spec fn worker_of(s: CreationState) -> Option<u64> {
    match s {
        CreationState::Clearing(w) => Some(w),
        CreationState::Refilling(w) => Some(w),
        CreationState::Installing(w) => Some(w),
        _ => None,
    }
}

/// Law: whatever happens, a session is filed only once its workspace is made, with
/// a worker that was handed to it; one that waited has been cleared before.
pub proof fn law_session_is_filed_last(template: bool, events: Seq<CreationEvent>, worker: u64)
    ensures
        creation_run(template, events).1 == CreationWork::File(worker) ==> {
            &&& handed(events, worker)
            &&& events.contains(CreationEvent::WorkspaceMade)
            &&& events.contains(CreationEvent::Spawned(worker)) || events.contains(CreationEvent::Cleared)
        },
{
    lemma_creation(template, events);
    if events.len() > 0 {
        let front = events.drop_last();
        lemma_creation(template, front);
        assert(events.last() == events[events.len() - 1]);
        lemma_longer(front, events);
        if creation_run(template, events).1 == CreationWork::File(worker) {
            assert(hands(events.last(), worker) || handed(front, worker));
        }
    }
}

/// What holds of a creation after some events.
spec fn creation_sound(s: CreationState, events: Seq<CreationEvent>) -> bool {
    &&& !(s is MakingWorkspace || s is Over) ==> events.contains(CreationEvent::WorkspaceMade)
    &&& worker_of(s) matches Some(w) ==> handed(events, w)
    &&& s is Refilling ==> events.contains(CreationEvent::Cleared)
    &&& s matches CreationState::Installing(w) ==> events.contains(CreationEvent::Spawned(w))
}

proof fn lemma_longer(front: Seq<CreationEvent>, events: Seq<CreationEvent>)
    requires
        events.len() > 0,
        front == events.drop_last(),
    ensures
        forall|e: CreationEvent| #[trigger] front.contains(e) ==> events.contains(e),
        forall|w: u64| #[trigger] handed(front, w) ==> handed(events, w),
        events.contains(events.last()),
        forall|w: u64| #[trigger] hands(events.last(), w) ==> handed(events, w),
{
    assert(events[events.len() - 1] == events.last());
    assert forall|e: CreationEvent| #[trigger] front.contains(e) implies events.contains(e) by {
        let i = choose|i: int| 0 <= i < front.len() && front[i] == e;
        assert(events[i] == e);
    }
    assert forall|w: u64| #[trigger] handed(front, w) implies handed(events, w) by {
        let i = choose|i: int| 0 <= i < front.len() && #[trigger] hands(front[i], w);
        assert(hands(events[i], w));
    }
    assert forall|w: u64| #[trigger] hands(events.last(), w) implies handed(events, w) by {
        assert(hands(events[events.len() - 1], w));
    }
}

proof fn lemma_creation(template: bool, events: Seq<CreationEvent>)
    ensures
        creation_sound(creation_run(template, events).0, events),
    decreases events.len(),
{
    if events.len() > 0 {
        let front = events.drop_last();
        lemma_creation(template, front);
        lemma_longer(front, events);
        let s = creation_run(template, front).0;
        let (next, work) = creation_step(template, s, events.last());
        assert(events.contains(events.last()));
        match worker_of(next) {
            Some(w) => {
                assert(hands(events.last(), w) || worker_of(s) == Some(w));
            },
            None => {},
        }
    }
}

} // verus!
