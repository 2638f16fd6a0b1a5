//! How code is run in a shared workspace, and how a workspace is deleted: which
//! work follows which event. Whoever runs these machines does the work and hands
//! back what came of it.
use vstd::prelude::*;
use crate::api::workspace::{
    delete_workspace, execute_in_workspace, restore_code, restore_text, save_code, save_text, workspace_checkpoint,
    workspace_deleted, workspace_dir, workspace_execution, workspace_file, workspace_path, WorkspaceRecord,
};
use crate::http::{Next, NextV, Response, ResponseV, INTERNAL_SERVER_ERROR, NOT_FOUND, OK};
use crate::runtime::ExecutionResult;

verus! {

// ── An execution ────────────────────────────────────────

/// An execution to be carried out.
pub struct RunPlan {
    pub workspace_id: String,
    pub temp_dir: String,
    pub checkpoint_dir: String,
}

/// How far an execution has come. Until a worker is there, the states carry the
/// file from which the workspace is restored, where there is one.
pub enum RunState {
    Checking,
    Loading,
    Looking(Option<String>),
    MakingDir(Option<String>),
    Spawning(Option<String>),
    Probing(String),
    Restoring,
    Filing,
    Executing,
    Saving(ExecutionResult, u64),
    Noting(ExecutionResult, u64),
}

impl View for RunState {
    type V = RunState;

    open spec fn view(&self) -> RunState {
        *self
    }
}

/// What happened to an execution.
pub enum RunEvent {
    /// Whether the key may use the workspace.
    Accessible(bool),
    Loaded(Option<WorkspaceRecord>),
    /// Whether the workspace has a live worker.
    Live(bool),
    DirMade(Result<(), String>),
    Spawned(Result<(), String>),
    /// Whether the file exists.
    Exists(bool),
    Restored,
    Filed,
    /// The code ran, for so many milliseconds by the clock.
    Ran(ExecutionResult, u64),
    Saved,
    Noted,
}

/// What is to be done for an execution.
pub enum RunWork {
    /// Nothing yet.
    Wait,
    CheckAccess,
    Load,
    /// Look for the live worker.
    Look,
    MakeDir(String),
    /// Start a worker in this directory.
    Spawn(String),
    /// Find out whether this file exists.
    Probe(String),
    /// Run this code, which restores the state of the workspace.
    Restore(String),
    /// Keep the worker as the live one.
    File,
    /// Run the code of the request, when no other runs.
    Execute,
    /// Run this code, which saves the state of the workspace.
    Save(String),
    /// Record this file as that of the saved state, and the access.
    Note(String),
}

/// What is to be done for an execution, as mathematics.
pub enum RunWorkV {
    Wait,
    CheckAccess,
    Load,
    Look,
    MakeDir(Seq<char>),
    Spawn(Seq<char>),
    Probe(Seq<char>),
    Restore(Seq<char>),
    File,
    Execute,
    Save(Seq<char>),
    Note(Seq<char>),
}

impl View for RunWork {
    type V = RunWorkV;

    open spec fn view(&self) -> RunWorkV {
        match self {
            RunWork::Wait => RunWorkV::Wait,
            RunWork::CheckAccess => RunWorkV::CheckAccess,
            RunWork::Load => RunWorkV::Load,
            RunWork::Look => RunWorkV::Look,
            RunWork::MakeDir(s) => RunWorkV::MakeDir(s@),
            RunWork::Spawn(s) => RunWorkV::Spawn(s@),
            RunWork::Probe(s) => RunWorkV::Probe(s@),
            RunWork::Restore(s) => RunWorkV::Restore(s@),
            RunWork::File => RunWorkV::File,
            RunWork::Execute => RunWorkV::Execute,
            RunWork::Save(s) => RunWorkV::Save(s@),
            RunWork::Note(s) => RunWorkV::Note(s@),
        }
    }
}

/// The directory of the workspace of a plan.
pub open spec fn plan_dir(plan: RunPlan) -> Seq<char> {
    workspace_dir(plan.temp_dir@, plan.workspace_id@)
}

/// The file of the saved state of the workspace of a plan.
pub open spec fn plan_file(plan: RunPlan) -> Seq<char> {
    workspace_file(plan.checkpoint_dir@, plan.workspace_id@)
}

/// The answer to a request for a workspace that is not there for the key.
pub open spec fn no_workspace() -> ResponseV {
    ResponseV::Text(NOT_FOUND, "workspace not found"@)
}

/// What follows an event. A workspace without a live worker gets one, restored
/// from the saved state where there is some. The code runs, the state is saved
/// and recorded, and only then is the execution answered. An event that does not
/// belong to the state changes nothing.
pub open spec fn run_step(plan: RunPlan, s: RunState, e: RunEvent) -> NextV<RunState, RunWorkV> {
    match (s, e) {
        (RunState::Checking, RunEvent::Accessible(ok)) => if ok {
            NextV::Do(RunState::Loading, RunWorkV::Load)
        } else {
            NextV::Answer(no_workspace())
        },
        (RunState::Loading, RunEvent::Loaded(record)) => match record {
            Some(w) => NextV::Do(RunState::Looking(w.checkpoint_path), RunWorkV::Look),
            None => NextV::Answer(no_workspace()),
        },
        (RunState::Looking(saved), RunEvent::Live(live)) => if live {
            NextV::Do(RunState::Executing, RunWorkV::Execute)
        } else {
            NextV::Do(RunState::MakingDir(saved), RunWorkV::MakeDir(plan_dir(plan)))
        },
        (RunState::MakingDir(saved), RunEvent::DirMade(made)) => match made {
            Ok(_) => NextV::Do(RunState::Spawning(saved), RunWorkV::Spawn(plan_dir(plan))),
            Err(e) => NextV::Answer(ResponseV::Text(INTERNAL_SERVER_ERROR, e@)),
        },
        (RunState::Spawning(saved), RunEvent::Spawned(made)) => match (made, saved) {
            (Err(e), _) => NextV::Answer(ResponseV::Text(INTERNAL_SERVER_ERROR, e@)),
            (Ok(_), Some(p)) => NextV::Do(RunState::Probing(p), RunWorkV::Probe(p@)),
            (Ok(_), None) => NextV::Do(RunState::Filing, RunWorkV::File),
        },
        (RunState::Probing(p), RunEvent::Exists(there)) => if there {
            NextV::Do(RunState::Restoring, RunWorkV::Restore(restore_text(p@)))
        } else {
            NextV::Do(RunState::Filing, RunWorkV::File)
        },
        (RunState::Restoring, RunEvent::Restored) => NextV::Do(RunState::Filing, RunWorkV::File),
        (RunState::Filing, RunEvent::Filed) => NextV::Do(RunState::Executing, RunWorkV::Execute),
        (RunState::Executing, RunEvent::Ran(x, ms)) => NextV::Do(
            RunState::Saving(x, ms),
            RunWorkV::Save(save_text(plan_file(plan))),
        ),
        (RunState::Saving(x, ms), RunEvent::Saved) => NextV::Do(
            RunState::Noting(x, ms),
            RunWorkV::Note(plan_file(plan)),
        ),
        (RunState::Noting(x, ms), RunEvent::Noted) => NextV::Answer(
            ResponseV::Json(OK, workspace_execution(x@, ms)),
        ),
        _ => NextV::Do(s, RunWorkV::Wait),
    }
}

/// The first state and work of an execution.
pub fn run_begin() -> (r: (RunState, RunWork))
    ensures
        r == (RunState::Checking, RunWork::CheckAccess),
{
    (RunState::Checking, RunWork::CheckAccess)
}

/// What follows an event.
pub fn run_next(plan: &RunPlan, s: RunState, e: RunEvent) -> (r: Next<RunState, RunWork>)
    ensures
        r@ == run_step(*plan, s, e),
{
    match (s, e) {
        (RunState::Checking, RunEvent::Accessible(ok)) => if ok {
            Next::Do(RunState::Loading, RunWork::Load)
        } else {
            Next::Answer(Response::Text(NOT_FOUND, "workspace not found".to_owned()))
        },
        (RunState::Loading, RunEvent::Loaded(record)) => match record {
            Some(w) => Next::Do(RunState::Looking(w.checkpoint_path), RunWork::Look),
            None => Next::Answer(Response::Text(NOT_FOUND, "workspace not found".to_owned())),
        },
        (RunState::Looking(saved), RunEvent::Live(live)) => if live {
            Next::Do(RunState::Executing, RunWork::Execute)
        } else {
            let dir: String = workspace_path(plan.temp_dir.as_str(), plan.workspace_id.as_str());
            Next::Do(RunState::MakingDir(saved), RunWork::MakeDir(dir))
        },
        (RunState::MakingDir(saved), RunEvent::DirMade(made)) => match made {
            Ok(_) => {
                let dir: String = workspace_path(plan.temp_dir.as_str(), plan.workspace_id.as_str());
                Next::Do(RunState::Spawning(saved), RunWork::Spawn(dir))
            },
            Err(e) => Next::Answer(Response::Text(INTERNAL_SERVER_ERROR, e)),
        },
        (RunState::Spawning(saved), RunEvent::Spawned(made)) => match (made, saved) {
            (Err(e), _) => Next::Answer(Response::Text(INTERNAL_SERVER_ERROR, e)),
            (Ok(_), Some(p)) => {
                let copy: String = p.clone();
                Next::Do(RunState::Probing(p), RunWork::Probe(copy))
            },
            (Ok(_), None) => Next::Do(RunState::Filing, RunWork::File),
        },
        (RunState::Probing(p), RunEvent::Exists(there)) => if there {
            Next::Do(RunState::Restoring, RunWork::Restore(restore_code(p.as_str())))
        } else {
            Next::Do(RunState::Filing, RunWork::File)
        },
        (RunState::Restoring, RunEvent::Restored) => Next::Do(RunState::Filing, RunWork::File),
        (RunState::Filing, RunEvent::Filed) => Next::Do(RunState::Executing, RunWork::Execute),
        (RunState::Executing, RunEvent::Ran(x, ms)) => {
            let file: String = workspace_checkpoint(plan.checkpoint_dir.as_str(), plan.workspace_id.as_str());
            Next::Do(RunState::Saving(x, ms), RunWork::Save(save_code(file.as_str())))
        },
        (RunState::Saving(x, ms), RunEvent::Saved) => {
            let file: String = workspace_checkpoint(plan.checkpoint_dir.as_str(), plan.workspace_id.as_str());
            Next::Do(RunState::Noting(x, ms), RunWork::Note(file))
        },
        (RunState::Noting(x, ms), RunEvent::Noted) => {
            Next::Answer(Response::Json(OK, execute_in_workspace(x, ms).to_json()))
        },
        (s, _) => Next::Do(s, RunWork::Wait),
    }
}

/// An execution after some events: its state until it is answered, the work
/// asked for so far, and the answer.
pub struct RunTrace {
    pub state: Option<RunState>,
    pub works: Seq<RunWorkV>,
    pub answer: Option<ResponseV>,
}

/// An execution after some events.
pub open spec fn run_trace(plan: RunPlan, events: Seq<RunEvent>) -> RunTrace
    decreases events.len(),
{
    if events.len() == 0 {
        RunTrace { state: Some(RunState::Checking), works: seq![RunWorkV::CheckAccess], answer: None }
    } else {
        let before = run_trace(plan, events.drop_last());
        match before.state {
            None => before,
            Some(s) => match run_step(plan, s, events.last()) {
                NextV::Do(next, work) => RunTrace { state: Some(next), works: before.works.push(work), answer: None },
                NextV::Answer(r) => RunTrace { state: None, works: before.works, answer: Some(r) },
            },
        }
    }
}

/// Whether some work stands at `i`.
pub open spec fn work_at(works: Seq<RunWorkV>, i: int, work: RunWorkV) -> bool {
    0 <= i < works.len() && works[i] == work
}

/// Whether the code ran at `i`, the state was saved at `j` and recorded at `k`.
pub open spec fn saved_run(plan: RunPlan, works: Seq<RunWorkV>, i: int, j: int, k: int) -> bool {
    &&& i < j < k
    &&& work_at(works, i, RunWorkV::Execute)
    &&& work_at(works, j, RunWorkV::Save(save_text(plan_file(plan))))
    &&& work_at(works, k, RunWorkV::Note(plan_file(plan)))
}

/// What each state says of the work asked for before it. The result tells where
/// the code ran and where the state was saved and recorded, as far as it was.
proof fn lemma_run(plan: RunPlan, events: Seq<RunEvent>) -> (r: (int, int, int))
    ensures
        ({
            let t = run_trace(plan, events);
            let (i, j, k) = r;
            let ran = work_at(t.works, i, RunWorkV::Execute) && forall|m: int|
                work_at(t.works, m, RunWorkV::Execute) ==> m == i;
            let saved = i < j && work_at(t.works, j, RunWorkV::Save(save_text(plan_file(plan))));
            &&& match t.state {
                Some(RunState::Executing) => ran,
                Some(RunState::Saving(_, _)) => ran && saved,
                Some(RunState::Noting(_, _)) => ran && saved && j < k && work_at(
                    t.works,
                    k,
                    RunWorkV::Note(plan_file(plan)),
                ),
                Some(_) => forall|m: int| !work_at(t.works, m, RunWorkV::Execute),
                None => ran || forall|m: int| !work_at(t.works, m, RunWorkV::Execute),
            }
            &&& t.answer is Some <==> t.state is None
            &&& t.answer matches Some(ResponseV::Json(_, _)) ==> saved_run(plan, t.works, i, j, k)
        }),
    decreases events.len(),
{
    if events.len() == 0 {
        (0, 0, 0)
    } else {
        let before = run_trace(plan, events.drop_last());
        let after = run_trace(plan, events);
        let (i, j, k) = lemma_run(plan, events.drop_last());
        let n = before.works.len() as int;
        match before.state {
            None => (i, j, k),
            Some(s) => match run_step(plan, s, events.last()) {
                NextV::Answer(r) => (i, j, k),
                NextV::Do(next, work) => {
                    assert(forall|m: int| 0 <= m < n ==> after.works[m] == before.works[m]);
                    assert(forall|m: int|
                        work_at(after.works, m, RunWorkV::Execute) ==> m == n || work_at(
                            before.works,
                            m,
                            RunWorkV::Execute,
                        ));
                    match work {
                        RunWorkV::Execute => (n, j, k),
                        RunWorkV::Save(_) => (i, n, k),
                        RunWorkV::Note(_) => (i, j, n),
                        _ => (i, j, k),
                    }
                },
            },
        }
    }
}

/// Law: the state of a workspace is saved after every execution: one that is
/// answered with what came of it has run its code, then saved the state, and then
/// recorded the file in which it is saved.
pub proof fn law_every_run_is_saved(plan: RunPlan, events: Seq<RunEvent>)
    requires
        run_trace(plan, events).answer matches Some(ResponseV::Json(_, _)),
    ensures
        exists|i: int, j: int, k: int| saved_run(plan, run_trace(plan, events).works, i, j, k),
{
    let (i, j, k) = lemma_run(plan, events);
    assert(saved_run(plan, run_trace(plan, events).works, i, j, k));
}

/// Law: the code of a request runs at most once, whatever happens.
pub proof fn law_code_runs_once(plan: RunPlan, events: Seq<RunEvent>, a: int, b: int)
    requires
        work_at(run_trace(plan, events).works, a, RunWorkV::Execute),
        work_at(run_trace(plan, events).works, b, RunWorkV::Execute),
    ensures
        a == b,
{
    let (i, j, k) = lemma_run(plan, events);
}

/// Law: nothing is done for a key that may not use the workspace, and it learns
/// no more than that there is none for it.
pub proof fn law_only_members_run(plan: RunPlan, events: Seq<RunEvent>)
    requires
        !events.contains(RunEvent::Accessible(true)),
    ensures
        forall|i: int|
            0 <= i < run_trace(plan, events).works.len() ==> #[trigger] run_trace(plan, events).works[i] is CheckAccess
                || run_trace(plan, events).works[i] is Wait,
        run_trace(plan, events).answer matches Some(r) ==> r == no_workspace(),
        run_trace(plan, events).state matches Some(s) ==> s is Checking,
    decreases events.len(),
{
    if events.len() > 0 {
        let earlier = events.drop_last();
        assert(!earlier.contains(RunEvent::Accessible(true))) by {
            if earlier.contains(RunEvent::Accessible(true)) {
                let k = choose|k: int| 0 <= k < earlier.len() && earlier[k] == RunEvent::Accessible(true);
                assert(events[k] == RunEvent::Accessible(true));
            }
        }
        law_only_members_run(plan, earlier);
        assert(events[events.len() - 1] != RunEvent::Accessible(true));
    }
}

/// Whether the state in the file `p` was restored between `q` and `f`.
pub open spec fn restored_between(works: Seq<RunWorkV>, q: int, f: int, p: Seq<char>) -> bool {
    exists|j: int| q < j < f && #[trigger] work_at(works, j, RunWorkV::Restore(restore_text(p)))
}

/// What each state says of the saved state that was looked for.
proof fn lemma_restored(plan: RunPlan, events: Seq<RunEvent>, q: int, p: Seq<char>, f: int)
    requires
        work_at(run_trace(plan, events).works, q, RunWorkV::Probe(p)),
    ensures
        ({
            let t = run_trace(plan, events);
            let restored = restored_between(t.works, q, t.works.len() as int, p);
            let filed = work_at(t.works, f, RunWorkV::File);
            match t.state {
                Some(RunState::Probing(x)) => x@ == p && !filed,
                Some(RunState::Restoring) => restored && !filed,
                Some(RunState::Checking) => false,
                Some(RunState::Loading) => false,
                Some(RunState::Looking(_)) => false,
                Some(RunState::MakingDir(_)) => false,
                Some(RunState::Spawning(_)) => false,
                _ => filed ==> restored_between(t.works, q, f, p) || events.contains(RunEvent::Exists(false)),
            }
        }),
        run_trace(plan, events).state is Some ==> run_trace(plan, events).answer is None,
    decreases events.len(),
{
    if events.len() > 0 {
        let earlier = events.drop_last();
        let before = run_trace(plan, earlier);
        let after = run_trace(plan, events);
        let n = before.works.len() as int;
        if earlier.contains(RunEvent::Exists(false)) {
            let k = choose|k: int| 0 <= k < earlier.len() && earlier[k] == RunEvent::Exists(false);
            assert(events[k] == RunEvent::Exists(false));
        }
        assert(events.last() == RunEvent::Exists(false) ==> events.contains(RunEvent::Exists(false))) by {
            assert(events[events.len() - 1] == events.last());
        }
        assert(forall|m: int| 0 <= m < n ==> after.works[m] == before.works[m]);
        if q < n {
            lemma_restored(plan, earlier, q, p, f);
            if restored_between(before.works, q, n, p) {
                let j = choose|j: int| q < j < n && #[trigger] work_at(before.works, j, RunWorkV::Restore(restore_text(p)));
                assert(work_at(after.works, j, RunWorkV::Restore(restore_text(p))));
            }
            if restored_between(before.works, q, f, p) {
                let j = choose|j: int| q < j < f && #[trigger] work_at(before.works, j, RunWorkV::Restore(restore_text(p)));
                assert(work_at(after.works, j, RunWorkV::Restore(restore_text(p))));
            }
            if after.works.len() > n {
                assert(work_at(after.works, n, after.works[n]));
            }
        } else {
            lemma_before_spawn(plan, earlier, f);
        }
    }
}

/// A worker is kept only once it was started.
proof fn lemma_before_spawn(plan: RunPlan, events: Seq<RunEvent>, f: int)
    ensures
        match run_trace(plan, events).state {
            Some(RunState::Checking) => !work_at(run_trace(plan, events).works, f, RunWorkV::File),
            Some(RunState::Loading) => !work_at(run_trace(plan, events).works, f, RunWorkV::File),
            Some(RunState::Looking(_)) => !work_at(run_trace(plan, events).works, f, RunWorkV::File),
            Some(RunState::MakingDir(_)) => !work_at(run_trace(plan, events).works, f, RunWorkV::File),
            Some(RunState::Spawning(_)) => !work_at(run_trace(plan, events).works, f, RunWorkV::File),
            _ => true,
        },
    decreases events.len(),
{
    if events.len() > 0 {
        lemma_before_spawn(plan, events.drop_last(), f);
        let before = run_trace(plan, events.drop_last());
        assert(work_at(run_trace(plan, events).works, f, RunWorkV::File) && f < before.works.len() ==> work_at(
            before.works,
            f,
            RunWorkV::File,
        ));
    }
}

/// Law: the state of a workspace survives its worker: where the file of the saved
/// state was looked for, the new worker is put to use only after the state was
/// restored from that file, unless the file was not there.
pub proof fn law_saved_state_is_restored(plan: RunPlan, events: Seq<RunEvent>, q: int, p: Seq<char>, f: int)
    requires
        work_at(run_trace(plan, events).works, q, RunWorkV::Probe(p)),
        work_at(run_trace(plan, events).works, f, RunWorkV::File),
    ensures
        restored_between(run_trace(plan, events).works, q, f, p) || events.contains(RunEvent::Exists(false)),
{
    lemma_restored(plan, events, q, p, f);
}

// ── A deletion ──────────────────────────────────────────

/// How far the deletion of a workspace has come.
#[derive(Clone, Copy, PartialEq, Eq, Structural)]
pub enum DeleteState {
    Checking,
    Ending,
    Wiping,
    Loading,
    Removing,
    Deleting,
}

impl View for DeleteState {
    type V = DeleteState;

    open spec fn view(&self) -> DeleteState {
        *self
    }
}

/// What happened to a deletion.
pub enum DeleteEvent {
    /// Whether the key is the owner's.
    Owner(bool),
    /// Whether a live worker was taken out of use.
    Ended(bool),
    Wiped,
    Loaded(Option<WorkspaceRecord>),
    Removed,
    /// Whether a record was deleted.
    Deleted(bool),
}

/// What is to be done for a deletion.
pub enum DeleteWork {
    /// Nothing yet.
    Wait,
    CheckOwner,
    /// Take the live worker out of use.
    End,
    /// When nothing runs in the worker, remove this directory, and let the worker
    /// go.
    Wipe(String),
    Load,
    /// Remove this file.
    Remove(String),
    Delete,
}

/// What is to be done for a deletion, as mathematics.
pub enum DeleteWorkV {
    Wait,
    CheckOwner,
    End,
    Wipe(Seq<char>),
    Load,
    Remove(Seq<char>),
    Delete,
}

impl View for DeleteWork {
    type V = DeleteWorkV;

    open spec fn view(&self) -> DeleteWorkV {
        match self {
            DeleteWork::Wait => DeleteWorkV::Wait,
            DeleteWork::CheckOwner => DeleteWorkV::CheckOwner,
            DeleteWork::End => DeleteWorkV::End,
            DeleteWork::Wipe(s) => DeleteWorkV::Wipe(s@),
            DeleteWork::Load => DeleteWorkV::Load,
            DeleteWork::Remove(s) => DeleteWorkV::Remove(s@),
            DeleteWork::Delete => DeleteWorkV::Delete,
        }
    }
}

/// What follows an event: for the owner the live worker, its directory, the saved
/// state and the record go, in this order.
pub open spec fn delete_step(temp_dir: Seq<char>, id: Seq<char>, s: DeleteState, e: DeleteEvent) -> NextV<
    DeleteState,
    DeleteWorkV,
> {
    match (s, e) {
        (DeleteState::Checking, DeleteEvent::Owner(owner)) => if owner {
            NextV::Do(DeleteState::Ending, DeleteWorkV::End)
        } else {
            NextV::Answer(workspace_deleted(false, false))
        },
        (DeleteState::Ending, DeleteEvent::Ended(live)) => if live {
            NextV::Do(DeleteState::Wiping, DeleteWorkV::Wipe(workspace_dir(temp_dir, id)))
        } else {
            NextV::Do(DeleteState::Loading, DeleteWorkV::Load)
        },
        (DeleteState::Wiping, DeleteEvent::Wiped) => NextV::Do(DeleteState::Loading, DeleteWorkV::Load),
        (DeleteState::Loading, DeleteEvent::Loaded(record)) => match record {
            Some(w) => match w.checkpoint_path {
                Some(p) => NextV::Do(DeleteState::Removing, DeleteWorkV::Remove(p@)),
                None => NextV::Do(DeleteState::Deleting, DeleteWorkV::Delete),
            },
            None => NextV::Do(DeleteState::Deleting, DeleteWorkV::Delete),
        },
        (DeleteState::Removing, DeleteEvent::Removed) => NextV::Do(DeleteState::Deleting, DeleteWorkV::Delete),
        (DeleteState::Deleting, DeleteEvent::Deleted(deleted)) => NextV::Answer(workspace_deleted(true, deleted)),
        _ => NextV::Do(s, DeleteWorkV::Wait),
    }
}

/// The first state and work of a deletion.
pub fn delete_begin() -> (r: (DeleteState, DeleteWork))
    ensures
        r == (DeleteState::Checking, DeleteWork::CheckOwner),
{
    (DeleteState::Checking, DeleteWork::CheckOwner)
}

/// What follows an event.
pub fn delete_next(temp_dir: &str, id: &str, s: DeleteState, e: DeleteEvent) -> (r: Next<DeleteState, DeleteWork>)
    ensures
        r@ == delete_step(temp_dir@, id@, s, e),
{
    match (s, e) {
        (DeleteState::Checking, DeleteEvent::Owner(owner)) => if owner {
            Next::Do(DeleteState::Ending, DeleteWork::End)
        } else {
            Next::Answer(delete_workspace(false, false))
        },
        (DeleteState::Ending, DeleteEvent::Ended(live)) => if live {
            Next::Do(DeleteState::Wiping, DeleteWork::Wipe(workspace_path(temp_dir, id)))
        } else {
            Next::Do(DeleteState::Loading, DeleteWork::Load)
        },
        (DeleteState::Wiping, DeleteEvent::Wiped) => Next::Do(DeleteState::Loading, DeleteWork::Load),
        (DeleteState::Loading, DeleteEvent::Loaded(record)) => match record {
            Some(w) => match w.checkpoint_path {
                Some(p) => Next::Do(DeleteState::Removing, DeleteWork::Remove(p)),
                None => Next::Do(DeleteState::Deleting, DeleteWork::Delete),
            },
            None => Next::Do(DeleteState::Deleting, DeleteWork::Delete),
        },
        (DeleteState::Removing, DeleteEvent::Removed) => Next::Do(DeleteState::Deleting, DeleteWork::Delete),
        (DeleteState::Deleting, DeleteEvent::Deleted(deleted)) => Next::Answer(delete_workspace(true, deleted)),
        (s, _) => Next::Do(s, DeleteWork::Wait),
    }
}

/// Law: only the owner deletes a workspace: from the first state every event but
/// that the key is the owner's leads to no work, and to a refusal where the key
/// is another's.
pub proof fn law_only_the_owner_deletes(temp_dir: Seq<char>, id: Seq<char>, e: DeleteEvent)
    ensures
        match delete_step(temp_dir, id, DeleteState::Checking, e) {
            NextV::Do(next, work) => if e == DeleteEvent::Owner(true) {
                next == DeleteState::Ending && work is End
            } else {
                next == DeleteState::Checking && work is Wait
            },
            NextV::Answer(r) => e == DeleteEvent::Owner(false) && r == workspace_deleted(false, false),
        },
{
}

} // verus!
