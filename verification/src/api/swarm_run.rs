//! How a swarm is carried out: which work follows which event. The template, the
//! launch, each worker and the swarm as a whole are state machines; whoever runs them
//! does the work and hands back what came of it.
use vstd::prelude::*;
use crate::api::stragglers::{late_ones, open_worker, step, Event, Progress, Stragglers};
use crate::api::swarm::{
    absorbed, after_template, after_template_checkpoint, error_with_detail, feed_text, final_code, finished, worker_done,
    worker_result, worker_sent, worker_stored, Reducer, ReducerV, WorkerDone, WorkerDoneV, WorkerEnd, WorkerResult,
    WorkerResultV,
};
use crate::http::{Response, ResponseV, INTERNAL_SERVER_ERROR, OK};
use crate::runtime::ExecutionResult;
use crate::text::maybe_owned;

verus! {

// ── The template ────────────────────────────────────────

/// How far the template of a swarm has come.
pub enum TemplateState {
    Creating,
    /// Its code runs in this session.
    Running(String),
    /// The state of this session is being saved.
    Saving(String),
    /// Its session is being ended, after this.
    Ending(TemplateOutcome),
    Storing,
    Over,
}

/// What came of the template.
pub enum TemplateOutcome {
    /// Its state was saved, in so many bytes.
    Saved(u64),
    Refused(TemplateRefusal),
}

/// Why there is no swarm.
pub enum TemplateRefusal {
    /// No session, or no record of the checkpoint.
    Internal,
    CodeFailed(String),
    SaveFailed(String),
}

/// What happened to the template.
pub enum TemplateEvent {
    /// A session was created, or could not be.
    Created(Option<String>),
    /// The session was gone before the code ran.
    Gone,
    /// The code ran.
    Ran(ExecutionResult),
    /// The state was saved in so many bytes, or with an error.
    Saved(u64, Option<String>),
    Ended,
    /// The checkpoint was recorded, or could not be.
    Stored(bool),
}

/// What is to be done for the template.
pub enum TemplateWork {
    /// Nothing yet.
    Wait,
    CreateSession,
    /// Run the code in this session.
    Execute(String),
    /// Save the state of this session.
    Save(String),
    EndSession(String),
    /// Record a checkpoint of so many bytes.
    Store(u64),
    /// The workers can start from the checkpoint.
    Ready,
    Refuse(TemplateRefusal),
}

/// The state and the work that follow an event: the code runs once in a session
/// of its own, whose state is saved and which is ended in any case; the
/// checkpoint is recorded only then. An event that does not belong to the state
/// changes nothing.
pub open spec fn template_step(s: TemplateState, e: TemplateEvent) -> (TemplateState, TemplateWork) {
    match (s, e) {
        (TemplateState::Creating, TemplateEvent::Created(Some(id))) => (
            TemplateState::Running(id),
            TemplateWork::Execute(id),
        ),
        (TemplateState::Creating, TemplateEvent::Created(None)) => (
            TemplateState::Over,
            TemplateWork::Refuse(TemplateRefusal::Internal),
        ),
        (TemplateState::Running(id), TemplateEvent::Gone) => (
            TemplateState::Over,
            TemplateWork::Refuse(TemplateRefusal::Internal),
        ),
        (TemplateState::Running(id), TemplateEvent::Ran(x)) => match x.error {
            Some(e) => (
                TemplateState::Ending(TemplateOutcome::Refused(TemplateRefusal::CodeFailed(e))),
                TemplateWork::EndSession(id),
            ),
            None => (TemplateState::Saving(id), TemplateWork::Save(id)),
        },
        (TemplateState::Saving(id), TemplateEvent::Saved(size, error)) => (
            TemplateState::Ending(
                match error {
                    Some(e) => TemplateOutcome::Refused(TemplateRefusal::SaveFailed(e)),
                    None => TemplateOutcome::Saved(size),
                },
            ),
            TemplateWork::EndSession(id),
        ),
        (TemplateState::Ending(TemplateOutcome::Saved(size)), TemplateEvent::Ended) => (
            TemplateState::Storing,
            TemplateWork::Store(size),
        ),
        (TemplateState::Ending(TemplateOutcome::Refused(r)), TemplateEvent::Ended) => (
            TemplateState::Over,
            TemplateWork::Refuse(r),
        ),
        (TemplateState::Storing, TemplateEvent::Stored(stored)) => (
            TemplateState::Over,
            if stored {
                TemplateWork::Ready
            } else {
                TemplateWork::Refuse(TemplateRefusal::Internal)
            },
        ),
        _ => (s, TemplateWork::Wait),
    }
}

/// The first state and work of a template.
pub fn template_begin() -> (r: (TemplateState, TemplateWork))
    ensures
        r == (TemplateState::Creating, TemplateWork::CreateSession),
{
    (TemplateState::Creating, TemplateWork::CreateSession)
}

/// The state and the work that follow an event.
pub fn template_next(s: TemplateState, e: TemplateEvent) -> (r: (TemplateState, TemplateWork))
    ensures
        r == template_step(s, e),
{
    match (s, e) {
        (TemplateState::Creating, TemplateEvent::Created(Some(id))) => {
            let copy: String = id.clone();
            (TemplateState::Running(copy), TemplateWork::Execute(id))
        },
        (TemplateState::Creating, TemplateEvent::Created(None)) => (
            TemplateState::Over,
            TemplateWork::Refuse(TemplateRefusal::Internal),
        ),
        (TemplateState::Running(_), TemplateEvent::Gone) => (
            TemplateState::Over,
            TemplateWork::Refuse(TemplateRefusal::Internal),
        ),
        (TemplateState::Running(id), TemplateEvent::Ran(x)) => match x.error {
            Some(e) => (
                TemplateState::Ending(TemplateOutcome::Refused(TemplateRefusal::CodeFailed(e))),
                TemplateWork::EndSession(id),
            ),
            None => {
                let copy: String = id.clone();
                (TemplateState::Saving(copy), TemplateWork::Save(id))
            },
        },
        (TemplateState::Saving(id), TemplateEvent::Saved(size, error)) => {
            let outcome: TemplateOutcome = match error {
                Some(e) => TemplateOutcome::Refused(TemplateRefusal::SaveFailed(e)),
                None => TemplateOutcome::Saved(size),
            };
            (TemplateState::Ending(outcome), TemplateWork::EndSession(id))
        },
        (TemplateState::Ending(TemplateOutcome::Saved(size)), TemplateEvent::Ended) => (
            TemplateState::Storing,
            TemplateWork::Store(size),
        ),
        (TemplateState::Ending(TemplateOutcome::Refused(r)), TemplateEvent::Ended) => (
            TemplateState::Over,
            TemplateWork::Refuse(r),
        ),
        (TemplateState::Storing, TemplateEvent::Stored(stored)) => (
            TemplateState::Over,
            if stored {
                TemplateWork::Ready
            } else {
                TemplateWork::Refuse(TemplateRefusal::Internal)
            },
        ),
        (s, _) => (s, TemplateWork::Wait),
    }
}

/// The answer to a request whose template was refused.
pub fn template_answer(refusal: TemplateRefusal) -> (r: Response)
    ensures
        r@ == match refusal {
            TemplateRefusal::Internal => ResponseV::Status(INTERNAL_SERVER_ERROR),
            TemplateRefusal::CodeFailed(e) => ResponseV::Json(OK, error_with_detail("template_code failed"@, e@)),
            TemplateRefusal::SaveFailed(e) => ResponseV::Json(OK, error_with_detail("template checkpoint failed"@, e@)),
        },
{
    match refusal {
        TemplateRefusal::Internal => Response::Status(INTERNAL_SERVER_ERROR),
        TemplateRefusal::CodeFailed(e) => after_template(e.as_str()),
        TemplateRefusal::SaveFailed(e) => after_template_checkpoint(e.as_str()),
    }
}

/// The session that a template has open.
pub open spec fn template_session(s: TemplateState) -> Option<Seq<char>> {
    match s {
        TemplateState::Running(id) => Some(id@),
        TemplateState::Saving(id) => Some(id@),
        _ => None,
    }
}

/// Law: the session of a template stays open until it is ended or found to be
/// gone.
pub proof fn law_template_session_is_ended(s: TemplateState, e: TemplateEvent)
    ensures
        template_session(s) is Some ==> {
            let (next, work) = template_step(s, e);
            ||| template_session(next) == template_session(s)
            ||| work matches TemplateWork::EndSession(id) && Some(id@) == template_session(s)
            ||| e is Gone
        },
{
}

// ── The launch ──────────────────────────────────────────

/// How far the launch of a swarm has come.
pub enum LaunchState {
    /// The template runs, and the sessions of the workers are being created.
    Templating,
    /// The swarm is being recorded; whether there are sessions for its workers.
    Recording(bool),
    Over,
}

/// What happened to the launch of a swarm.
pub enum LaunchEvent {
    TemplateReady,
    TemplateRefused(TemplateRefusal),
    /// The swarm was recorded, or could not be.
    Recorded(bool),
}

/// What is to be done for the launch of a swarm.
pub enum LaunchWork {
    /// Have the session of a worker created, without waiting for it.
    Warm(usize),
    /// Run the template to its end.
    RunTemplate,
    /// Record the swarm and its workers.
    Record,
    /// Start the workers.
    Start,
    /// End the session that was created for a worker.
    Cool(usize),
    Refuse(TemplateRefusal),
}

/// The sessions of the first `n` workers are created.
pub open spec fn warm_all(n: nat) -> Seq<LaunchWork> {
    Seq::new(n, |i: int| LaunchWork::Warm(i as usize))
}

/// The sessions of the first `n` workers are ended.
pub open spec fn cool_all(n: nat) -> Seq<LaunchWork> {
    Seq::new(n, |i: int| LaunchWork::Cool(i as usize))
}

/// The first state and the first works of a launch. With a template, the sessions
/// of all workers are created beside it; the launch waits for the template only
/// after that.
pub open spec fn launch_start(total: usize, template: bool) -> (LaunchState, Seq<LaunchWork>) {
    if template {
        (LaunchState::Templating, warm_all(total as nat).push(LaunchWork::RunTemplate))
    } else {
        (LaunchState::Recording(false), seq![LaunchWork::Record])
    }
}

/// The state and the works that follow an event. Where there is no swarm in the
/// end, the sessions that were created for its workers are ended.
pub open spec fn launch_step(total: usize, s: LaunchState, e: LaunchEvent) -> (LaunchState, Seq<LaunchWork>) {
    match (s, e) {
        (LaunchState::Templating, LaunchEvent::TemplateReady) => (
            LaunchState::Recording(true),
            seq![LaunchWork::Record],
        ),
        (LaunchState::Templating, LaunchEvent::TemplateRefused(r)) => (
            LaunchState::Over,
            cool_all(total as nat).push(LaunchWork::Refuse(r)),
        ),
        (LaunchState::Recording(warm), LaunchEvent::Recorded(recorded)) => (
            LaunchState::Over,
            if recorded {
                seq![LaunchWork::Start]
            } else {
                cool_all(
                    if warm {
                        total as nat
                    } else {
                        0
                    },
                ).push(LaunchWork::Refuse(TemplateRefusal::Internal))
            },
        ),
        _ => (s, seq![]),
    }
}

/// The first state and the first works of a launch.
pub fn launch_begin(total: usize, template: bool) -> (r: (LaunchState, Vec<LaunchWork>))
    ensures
        (r.0, r.1@) == launch_start(total, template),
{
    let mut works: Vec<LaunchWork> = Vec::new();
    if !template {
        works.push(LaunchWork::Record);
        assert(works@ =~= seq![LaunchWork::Record]);
        return (LaunchState::Recording(false), works);
    }
    let mut i: usize = 0;
    while i < total
        invariant
            i <= total,
            works@ =~= warm_all(i as nat),
        decreases total - i,
    {
        works.push(LaunchWork::Warm(i));
        i += 1;
    }
    works.push(LaunchWork::RunTemplate);
    (LaunchState::Templating, works)
}

/// Ends the sessions of the first `n` workers, and refuses the swarm.
fn cool_down(n: usize, refusal: TemplateRefusal) -> (r: Vec<LaunchWork>)
    ensures
        r@ == cool_all(n as nat).push(LaunchWork::Refuse(refusal)),
{
    let mut works: Vec<LaunchWork> = Vec::new();
    let mut i: usize = 0;
    while i < n
        invariant
            i <= n,
            works@ =~= cool_all(i as nat),
        decreases n - i,
    {
        works.push(LaunchWork::Cool(i));
        i += 1;
    }
    works.push(LaunchWork::Refuse(refusal));
    works
}

/// The state and the works that follow an event.
pub fn launch_next(total: usize, s: LaunchState, e: LaunchEvent) -> (r: (LaunchState, Vec<LaunchWork>))
    ensures
        (r.0, r.1@) == launch_step(total, s, e),
{
    match (s, e) {
        (LaunchState::Templating, LaunchEvent::TemplateReady) => {
            let works: Vec<LaunchWork> = vec![LaunchWork::Record];
            assert(works@ =~= seq![LaunchWork::Record]);
            (LaunchState::Recording(true), works)
        },
        (LaunchState::Templating, LaunchEvent::TemplateRefused(refusal)) => (
            LaunchState::Over,
            cool_down(total, refusal),
        ),
        (LaunchState::Recording(warm), LaunchEvent::Recorded(recorded)) => {
            if recorded {
                let works: Vec<LaunchWork> = vec![LaunchWork::Start];
                assert(works@ =~= seq![LaunchWork::Start]);
                (LaunchState::Over, works)
            } else {
                let n: usize = if warm {
                    total
                } else {
                    0
                };
                (LaunchState::Over, cool_down(n, TemplateRefusal::Internal))
            }
        },
        (s, _) => {
            let works: Vec<LaunchWork> = Vec::new();
            assert(works@ =~= seq![]);
            (s, works)
        },
    }
}

/// Law: with a template, the session of every worker is handed out before the
/// template is waited for.
pub proof fn law_workers_warm_up_beside_the_template(total: usize, i: usize)
    requires
        i < total,
    ensures
        ({
            let works = launch_start(total, true).1;
            &&& works[i as int] == LaunchWork::Warm(i)
            &&& forall|k: int| 0 <= k < works.len() && #[trigger] works[k] is RunTemplate ==> i < k
            &&& works.contains(LaunchWork::RunTemplate)
        }),
{
    let works = launch_start(total, true).1;
    assert(works[total as int] == LaunchWork::RunTemplate);
}

/// Law: where a swarm with a template is refused, the session of every worker is
/// ended, whether the template or the record failed.
pub proof fn law_no_warm_session_is_left(total: usize, s: LaunchState, e: LaunchEvent, i: usize)
    requires
        i < total,
        s is Templating || s == LaunchState::Recording(true),
    ensures
        ({
            let (next, works) = launch_step(total, s, e);
            works.len() > 0 && works.last() is Refuse ==> works.contains(LaunchWork::Cool(i))
        }),
{
    let (next, works) = launch_step(total, s, e);
    if works.len() > 0 && works.last() is Refuse {
        assert(works[i as int] == LaunchWork::Cool(i));
    }
}

// ── A worker ────────────────────────────────────────────

/// How far a worker of a swarm has come.
pub enum WorkerState {
    Creating,
    /// This session is being looked up.
    Looking(String),
    /// The template is being restored in this session.
    Restoring(String),
    /// The code of the worker runs in this session.
    Running(String),
    /// Its end is being reported; this session, where there is one, stays.
    Reporting(Option<String>),
    Ending,
    Over,
}

/// What happened to a worker.
pub enum WorkerEvent {
    /// A session was created, or why it could not be.
    Created(Result<String, String>),
    /// Whether the session was found.
    Found(bool),
    /// The template was restored, or could not be.
    Restored,
    Ran(ExecutionResult),
    Reported,
    Ended,
}

/// What is to be done for a worker.
pub enum WorkerWork {
    /// Nothing yet.
    Wait,
    CreateSession,
    /// Note that the worker runs in this session, and look it up.
    Look(String),
    /// Restore the template in this session.
    Restore(String),
    /// Run the code of the worker in this session.
    Execute(String),
    Report(WorkerEnd),
    EndSession(String),
    Stop,
}

/// The state and the work that follow an event: a worker gets a session, starts
/// from the template where there is one, runs its code, reports its end, and
/// ends its session.
pub open spec fn worker_step(s: WorkerState, e: WorkerEvent, template: bool) -> (WorkerState, WorkerWork) {
    match (s, e) {
        (WorkerState::Creating, WorkerEvent::Created(Ok(id))) => (WorkerState::Looking(id), WorkerWork::Look(id)),
        (WorkerState::Creating, WorkerEvent::Created(Err(e))) => (
            WorkerState::Reporting(None),
            WorkerWork::Report(WorkerEnd::NoSession(e)),
        ),
        (WorkerState::Looking(id), WorkerEvent::Found(found)) => if !found {
            (WorkerState::Reporting(None), WorkerWork::Report(WorkerEnd::Vanished))
        } else if template {
            (WorkerState::Restoring(id), WorkerWork::Restore(id))
        } else {
            (WorkerState::Running(id), WorkerWork::Execute(id))
        },
        (WorkerState::Restoring(id), WorkerEvent::Restored) => (WorkerState::Running(id), WorkerWork::Execute(id)),
        (WorkerState::Running(id), WorkerEvent::Ran(x)) => (
            WorkerState::Reporting(Some(id)),
            WorkerWork::Report(WorkerEnd::Ran(x)),
        ),
        (WorkerState::Reporting(Some(id)), WorkerEvent::Reported) => (WorkerState::Ending, WorkerWork::EndSession(id)),
        (WorkerState::Reporting(None), WorkerEvent::Reported) => (WorkerState::Over, WorkerWork::Stop),
        (WorkerState::Ending, WorkerEvent::Ended) => (WorkerState::Over, WorkerWork::Stop),
        _ => (s, WorkerWork::Wait),
    }
}

/// The first state and work of a worker.
pub fn worker_begin() -> (r: (WorkerState, WorkerWork))
    ensures
        r == (WorkerState::Creating, WorkerWork::CreateSession),
{
    (WorkerState::Creating, WorkerWork::CreateSession)
}

/// The state and the work that follow an event, given whether there is a
/// template to start from.
pub fn worker_next(s: WorkerState, e: WorkerEvent, template: bool) -> (r: (WorkerState, WorkerWork))
    ensures
        r == worker_step(s, e, template),
{
    match (s, e) {
        (WorkerState::Creating, WorkerEvent::Created(Ok(id))) => {
            let copy: String = id.clone();
            (WorkerState::Looking(copy), WorkerWork::Look(id))
        },
        (WorkerState::Creating, WorkerEvent::Created(Err(e))) => (
            WorkerState::Reporting(None),
            WorkerWork::Report(WorkerEnd::NoSession(e)),
        ),
        (WorkerState::Looking(id), WorkerEvent::Found(found)) => {
            let copy: String = id.clone();
            if !found {
                (WorkerState::Reporting(None), WorkerWork::Report(WorkerEnd::Vanished))
            } else if template {
                (WorkerState::Restoring(copy), WorkerWork::Restore(id))
            } else {
                (WorkerState::Running(copy), WorkerWork::Execute(id))
            }
        },
        (WorkerState::Restoring(id), WorkerEvent::Restored) => {
            let copy: String = id.clone();
            (WorkerState::Running(copy), WorkerWork::Execute(id))
        },
        (WorkerState::Running(id), WorkerEvent::Ran(x)) => (
            WorkerState::Reporting(Some(id)),
            WorkerWork::Report(WorkerEnd::Ran(x)),
        ),
        (WorkerState::Reporting(Some(id)), WorkerEvent::Reported) => (WorkerState::Ending, WorkerWork::EndSession(id)),
        (WorkerState::Reporting(None), WorkerEvent::Reported) => (WorkerState::Over, WorkerWork::Stop),
        (WorkerState::Ending, WorkerEvent::Ended) => (WorkerState::Over, WorkerWork::Stop),
        (s, _) => (s, WorkerWork::Wait),
    }
}

/// The session that a worker has open.
pub open spec fn worker_session(s: WorkerState) -> Option<Seq<char>> {
    match s {
        WorkerState::Looking(id) => Some(id@),
        WorkerState::Restoring(id) => Some(id@),
        WorkerState::Running(id) => Some(id@),
        WorkerState::Reporting(id) => maybe_owned(id),
        _ => None,
    }
}

/// Law: the session of a worker stays open until it is ended or found to be
/// gone.
pub proof fn law_worker_session_is_ended(s: WorkerState, e: WorkerEvent, template: bool)
    ensures
        worker_session(s) is Some ==> {
            let (next, work) = worker_step(s, e, template);
            ||| worker_session(next) == worker_session(s)
            ||| work matches WorkerWork::EndSession(id) && Some(id@) == worker_session(s)
            ||| e matches WorkerEvent::Found(found) && !found
        },
{
}

// ── The swarm ───────────────────────────────────────────

/// How far the reduction of a swarm has come.
#[derive(Clone, Copy, PartialEq, Eq, Structural)]
pub enum Phase {
    /// Nothing is reduced.
    Plain,
    /// The session of the reduction is being opened.
    Opening,
    /// The reduction waits for a result.
    Idle,
    /// The reduction takes a result in.
    Feeding,
    /// The reduction is asked for its result.
    Asking,
    /// The swarm is over.
    Over,
    /// The swarm is over, as the reduction had no session.
    Broken,
}

/// A swarm under way.
pub struct SwarmState {
    pub workers: Stragglers,
    /// What the workers handed to the reduction, in the order of their ends.
    pub results: Vec<WorkerResult>,
    /// How many of those the reduction has been fed.
    pub fed: usize,
    pub outcome: Reducer,
    pub phase: Phase,
}

/// A swarm under way, as mathematics.
#[verifier::ext_equal]
pub struct SwarmV {
    pub workers: Seq<Progress>,
    pub results: Seq<WorkerResultV>,
    pub fed: int,
    pub outcome: ReducerV,
    pub phase: Phase,
}

/// The contents of a list of results.
pub open spec fn results_view(v: Seq<WorkerResult>) -> Seq<WorkerResultV> {
    Seq::new(v.len(), |i: int| v[i]@)
}

impl View for SwarmState {
    type V = SwarmV;

    open spec fn view(&self) -> SwarmV {
        SwarmV {
            workers: self.workers@,
            results: results_view(self.results@),
            fed: self.fed as int,
            outcome: self.outcome@,
            phase: self.phase,
        }
    }
}

/// What happened in a swarm.
pub enum SwarmEvent {
    /// A worker or its backup ended, after `elapsed_ms` of its own and at `now`
    /// of the swarm; its stored index is `stored_index`.
    WorkerEnded { index: usize, end: WorkerEnd, elapsed_ms: i64, stored_index: u64, now: u64 },
    /// The reduction has a session and is prepared.
    ReducerOpened,
    /// The reduction got no session.
    ReducerFailed(String),
    /// The session of the reduction was gone.
    ReducerGone,
    /// The reduction ran what it was given.
    ReducerRan(ExecutionResult),
    /// Some time has passed.
    Tick(u64),
}

/// What is to be done for a swarm.
pub enum SwarmWork {
    /// Start a worker, or a backup for one.
    StartWorker(usize),
    /// Create the session of the reduction and prepare it.
    OpenReducer,
    /// Store the end of a worker.
    Store(usize, WorkerDone),
    /// Run this in the session of the reduction.
    Reduce(String),
    /// End the session of the reduction.
    CloseReducer,
    /// Store the outcome, and post it where that was asked for.
    Finish,
}

/// What is to be done for a swarm, as mathematics.
pub enum SwarmWorkV {
    StartWorker(int),
    OpenReducer,
    Store(int, WorkerDoneV),
    Reduce(Seq<char>),
    CloseReducer,
    Finish,
}

impl View for SwarmWork {
    type V = SwarmWorkV;

    open spec fn view(&self) -> SwarmWorkV {
        match self {
            SwarmWork::StartWorker(i) => SwarmWorkV::StartWorker(*i as int),
            SwarmWork::OpenReducer => SwarmWorkV::OpenReducer,
            SwarmWork::Store(i, d) => SwarmWorkV::Store(*i as int, d@),
            SwarmWork::Reduce(code) => SwarmWorkV::Reduce(code@),
            SwarmWork::CloseReducer => SwarmWorkV::CloseReducer,
            SwarmWork::Finish => SwarmWorkV::Finish,
        }
    }
}

/// The contents of a list of works.
pub open spec fn works_view(v: Seq<SwarmWork>) -> Seq<SwarmWorkV> {
    Seq::new(v.len(), |i: int| v[i]@)
}

/// Whether every worker has finished.
pub open spec fn all_done(workers: Seq<Progress>) -> bool {
    forall|i: int| !open_worker(workers, i)
}

/// What can be done now: a waiting reduction is fed the next result; when all
/// workers have finished and all results are fed, it is asked for its result
/// where it captured none; then the swarm is over.
pub open spec fn settled(v: SwarmV) -> (SwarmV, Seq<SwarmWorkV>) {
    match v.phase {
        Phase::Plain => if all_done(v.workers) {
            (SwarmV { phase: Phase::Over, ..v }, seq![SwarmWorkV::Finish])
        } else {
            (v, seq![])
        },
        Phase::Idle => if v.fed < v.results.len() {
            (
                SwarmV { fed: v.fed + 1, phase: Phase::Feeding, ..v },
                seq![SwarmWorkV::Reduce(feed_text(v.results[v.fed], v.outcome.reduce_fn))],
            )
        } else if all_done(v.workers) {
            match final_code(v.outcome) {
                Some(code) => (SwarmV { phase: Phase::Asking, ..v }, seq![SwarmWorkV::Reduce(code)]),
                None => (
                    SwarmV { phase: Phase::Over, ..v },
                    seq![SwarmWorkV::CloseReducer].push(SwarmWorkV::Finish),
                ),
            }
        } else {
            (v, seq![])
        },
        _ => (v, seq![]),
    }
}

/// The results with what a worker hands to the reduction.
pub open spec fn with_result(results: Seq<WorkerResultV>, sent: Option<WorkerResultV>) -> Seq<WorkerResultV> {
    match sent {
        Some(w) => results.push(w),
        None => results,
    }
}

/// The outcome of a swarm whose reduction got no session.
pub open spec fn broken(v: SwarmV, error: Seq<char>) -> SwarmV {
    SwarmV {
        outcome: ReducerV { reduce_fn: v.outcome.reduce_fn, stdout: None, result: None, error: Some(error) },
        phase: Phase::Broken,
        ..v
    }
}

/// What the end of a worker or its backup is to the workers of the swarm: one that
/// had no session to run in gave up.
pub open spec fn end_event(index: int, end: WorkerEnd, now: u64) -> Event {
    match end {
        WorkerEnd::Ran(_) => Event::Finish(index, now),
        _ => Event::GiveUp(index, now),
    }
}

/// Whether the end of a worker or its backup is the end of the worker.
pub open spec fn end_counts(workers: Seq<Progress>, index: int, end: WorkerEnd) -> bool {
    open_worker(workers, index) && (end is Ran || !(workers[index] is Backed))
}

/// The state and the works that follow an event. The end of a worker counts once:
/// the first of it and its backup to finish decides, or the last to give up.
pub open spec fn swarm_step(v: SwarmV, e: SwarmEvent) -> (SwarmV, Seq<SwarmWorkV>) {
    match e {
        SwarmEvent::WorkerEnded { index, end, elapsed_ms, stored_index, now } => if end_counts(
            v.workers,
            index as int,
            end,
        ) {
            let next = settled(
                SwarmV {
                    workers: step(v.workers, end_event(index as int, end, now)),
                    results: with_result(v.results, worker_sent(end, stored_index)),
                    ..v
                },
            );
            (next.0, seq![SwarmWorkV::Store(index as int, worker_stored(end, elapsed_ms))] + next.1)
        } else {
            (SwarmV { workers: step(v.workers, end_event(index as int, end, now)), ..v }, seq![])
        },
        SwarmEvent::ReducerOpened => if v.phase == Phase::Opening {
            settled(SwarmV { phase: Phase::Idle, ..v })
        } else {
            (v, seq![])
        },
        SwarmEvent::ReducerFailed(error) => if v.phase == Phase::Opening {
            (broken(v, "Reducer session failed: "@ + error@), seq![SwarmWorkV::Finish])
        } else {
            (v, seq![])
        },
        SwarmEvent::ReducerGone => if v.phase == Phase::Opening || v.phase == Phase::Feeding || v.phase
            == Phase::Asking {
            (broken(v, "Reducer session disappeared"@), seq![SwarmWorkV::Finish])
        } else {
            (v, seq![])
        },
        SwarmEvent::ReducerRan(x) => match v.phase {
            Phase::Feeding => settled(SwarmV { outcome: absorbed(v.outcome, x@), phase: Phase::Idle, ..v }),
            Phase::Asking => (
                SwarmV { outcome: finished(v.outcome, x@), phase: Phase::Over, ..v },
                seq![SwarmWorkV::CloseReducer].push(SwarmWorkV::Finish),
            ),
            _ => (v, seq![]),
        },
        SwarmEvent::Tick(now) => (
            SwarmV { workers: step(v.workers, Event::Look(now)), ..v },
            starts(late_ones(v.workers, now, v.workers.len())),
        ),
    }
}

/// The starts of some workers.
pub open spec fn starts(indices: Seq<int>) -> Seq<SwarmWorkV> {
    Seq::new(indices.len(), |i: int| SwarmWorkV::StartWorker(indices[i]))
}

/// A swarm at its start.
pub open spec fn swarm_start(total: nat, reduce_fn: Option<Seq<char>>, now: u64) -> SwarmV {
    SwarmV {
        workers: Seq::new(total, |i: int| Progress::Running(now)),
        results: Seq::empty(),
        fed: 0,
        outcome: ReducerV {
            reduce_fn: match reduce_fn {
                Some(f) => f,
                None => Seq::empty(),
            },
            stdout: None,
            result: None,
            error: None,
        },
        phase: if reduce_fn is Some {
            Phase::Opening
        } else {
            Phase::Plain
        },
    }
}

/// The works at the start of a swarm: all its workers, and the session of its
/// reduction.
pub open spec fn first_works(total: nat, reduce_fn: Option<Seq<char>>) -> Seq<SwarmWorkV> {
    let workers = starts(Seq::new(total, |i: int| i));
    if reduce_fn is Some {
        workers.push(SwarmWorkV::OpenReducer)
    } else {
        workers
    }
}

/// Adds a work to a list.
fn push_work(works: &mut Vec<SwarmWork>, work: SwarmWork)
    ensures
        works_view(final(works)@) == works_view(old(works)@).push(work@),
{
    let ghost before = works_view(works@);
    works.push(work);
    assert(works_view(works@) =~= before.push(work@));
}

/// Starts a swarm of at least one worker at `now` milliseconds.
pub fn swarm_begin(total: usize, reduce_fn: Option<String>, now: u64) -> (r: (SwarmState, Vec<SwarmWork>))
    ensures
        r.0@ == swarm_start(total as nat, maybe_owned(reduce_fn), now),
        works_view(r.1@) == first_works(total as nat, maybe_owned(reduce_fn)),
{
    let mut works: Vec<SwarmWork> = Vec::new();
    assert(works_view(works@) =~= starts(Seq::new(0, |k: int| k)));
    let mut i: usize = 0;
    while i < total
        invariant
            i <= total,
            works_view(works@) == starts(Seq::new(i as nat, |k: int| k)),
        decreases total - i,
    {
        push_work(&mut works, SwarmWork::StartWorker(i));
        i += 1;
        assert(works_view(works@) =~= starts(Seq::new(i as nat, |k: int| k)));
    }
    let results: Vec<WorkerResult> = Vec::new();
    assert(results_view(results@) =~= Seq::empty());
    let (outcome, phase): (Reducer, Phase) = match reduce_fn {
        Some(f) => {
            push_work(&mut works, SwarmWork::OpenReducer);
            (Reducer::new(f), Phase::Opening)
        },
        None => (Reducer::new(String::new()), Phase::Plain),
    };
    (SwarmState { workers: Stragglers::new(total, now), results, fed: 0, outcome, phase }, works)
}

/// Does what can be done now.
fn settle(s: &mut SwarmState, works: &mut Vec<SwarmWork>)
    requires
        old(s).fed <= old(s).results@.len(),
    ensures
        final(s)@ == settled(old(s)@).0,
        works_view(final(works)@) == works_view(old(works)@) + settled(old(s)@).1,
        final(s).fed <= final(s).results@.len(),
{
    let ghost before = works_view(works@);
    match s.phase {
        Phase::Plain => {
            if s.workers.done() {
                s.phase = Phase::Over;
                push_work(works, SwarmWork::Finish);
            }
        },
        Phase::Idle => {
            if s.fed < s.results.len() {
                let code: String = s.outcome.feed_code(&s.results[s.fed]);
                s.fed = s.fed + 1;
                s.phase = Phase::Feeding;
                push_work(works, SwarmWork::Reduce(code));
            } else if s.workers.done() {
                match s.outcome.final_code() {
                    Some(code) => {
                        s.phase = Phase::Asking;
                        push_work(works, SwarmWork::Reduce(code));
                    },
                    None => {
                        s.phase = Phase::Over;
                        push_work(works, SwarmWork::CloseReducer);
                        push_work(works, SwarmWork::Finish);
                    },
                }
            }
        },
        _ => {},
    }
    assert(works_view(works@) =~= before + settled(old(s)@).1);
}

/// Whether nothing more is to come of a swarm.
pub fn swarm_over(s: &SwarmState) -> (r: bool)
    ensures
        r == (is_over(s@) && all_done(s@.workers)),
{
    (s.phase == Phase::Over || s.phase == Phase::Broken) && s.workers.done()
}

/// Whether the reduction has been fed no more than there is.
pub open spec fn swarm_wf(v: SwarmV) -> bool {
    0 <= v.fed <= v.results.len()
}

/// The state and the works that follow an event.
pub fn swarm_next(s: SwarmState, e: SwarmEvent) -> (r: (SwarmState, Vec<SwarmWork>))
    requires
        swarm_wf(s@),
    ensures
        r.0@ == swarm_step(s@, e).0,
        works_view(r.1@) == swarm_step(s@, e).1,
        swarm_wf(r.0@),
{
    let mut s: SwarmState = s;
    let mut works: Vec<SwarmWork> = Vec::new();
    let ghost before = s@;
    assert(works_view(works@) =~= Seq::empty());
    match e {
        SwarmEvent::WorkerEnded { index, end, elapsed_ms, stored_index, now } => {
            let counts: bool = match &end {
                WorkerEnd::Ran(_) => s.workers.finish(index, now),
                _ => s.workers.give_up(index, now),
            };
            assert(s@.workers == step(before.workers, end_event(index as int, end, now)));
            if counts {
                push_work(&mut works, SwarmWork::Store(index, worker_done(&end, elapsed_ms)));
                let ghost results = s.results@;
                match worker_result(&end, stored_index) {
                    Some(w) => {
                        s.results.push(w);
                        assert(results_view(s.results@) =~= results_view(results).push(w@));
                    },
                    None => {},
                }
                assert(s@ =~= (SwarmV {
                    workers: step(before.workers, end_event(index as int, end, now)),
                    results: with_result(before.results, worker_sent(end, stored_index)),
                    ..before
                }));
                settle(&mut s, &mut works);
            }
        },
        SwarmEvent::ReducerOpened => {
            if s.phase == Phase::Opening {
                s.phase = Phase::Idle;
                settle(&mut s, &mut works);
            }
        },
        SwarmEvent::ReducerFailed(error) => {
            if s.phase == Phase::Opening {
                s.outcome.no_session(error.as_str());
                s.phase = Phase::Broken;
                push_work(&mut works, SwarmWork::Finish);
            }
        },
        SwarmEvent::ReducerGone => {
            if s.phase == Phase::Opening || s.phase == Phase::Feeding || s.phase == Phase::Asking {
                s.outcome.vanished();
                s.phase = Phase::Broken;
                push_work(&mut works, SwarmWork::Finish);
            }
        },
        SwarmEvent::ReducerRan(x) => {
            match s.phase {
                Phase::Feeding => {
                    s.outcome.absorb(x);
                    s.phase = Phase::Idle;
                    settle(&mut s, &mut works);
                },
                Phase::Asking => {
                    s.outcome.finish(&x);
                    s.phase = Phase::Over;
                    push_work(&mut works, SwarmWork::CloseReducer);
                    push_work(&mut works, SwarmWork::Finish);
                },
                _ => {},
            }
        },
        SwarmEvent::Tick(now) => {
            let due: Vec<usize> = s.workers.backups(now);
            let ghost indices = late_ones(before.workers, now, before.workers.len());
            assert(due@.len() == indices.len()) by {
                assert(due@.map_values(|i: usize| i as int).len() == indices.len());
            }
            let mut i: usize = 0;
            while i < due.len()
                invariant
                    i <= due@.len(),
                    due@.map_values(|i: usize| i as int) =~= indices,
                    works_view(works@) == starts(indices.take(i as int)),
                decreases due.len() - i,
            {
                push_work(&mut works, SwarmWork::StartWorker(due[i]));
                assert(indices[i as int] == due@.map_values(|i: usize| i as int)[i as int]);
                i += 1;
                assert(works_view(works@) =~= starts(indices.take(i as int)));
            }
            assert(indices.take(i as int) =~= indices);
        },
    }
    assert(works_view(works@) =~= swarm_step(before, e).1);
    (s, works)
}

// ── Laws ────────────────────────────────────────────────

/// The swarm and all its works after some events.
pub open spec fn swarm_run(total: nat, reduce_fn: Option<Seq<char>>, now: u64, events: Seq<SwarmEvent>) -> (
    SwarmV,
    Seq<SwarmWorkV>,
)
    decreases events.len(),
{
    if events.len() == 0 {
        (swarm_start(total, reduce_fn, now), first_works(total, reduce_fn))
    } else {
        let (v, works) = swarm_run(total, reduce_fn, now, events.drop_last());
        let next = swarm_step(v, events.last());
        (next.0, works + next.1)
    }
}

/// How often a swarm is finished.
pub open spec fn finishes(works: Seq<SwarmWorkV>) -> nat
    decreases works.len(),
{
    if works.len() == 0 {
        0
    } else {
        finishes(works.drop_last()) + if works.last() is Finish {
            1nat
        } else {
            0
        }
    }
}

/// How often the end of a worker is stored.
pub open spec fn stores(works: Seq<SwarmWorkV>, i: int) -> nat
    decreases works.len(),
{
    if works.len() == 0 {
        0
    } else {
        stores(works.drop_last(), i) + if works.last() matches SwarmWorkV::Store(k, d) && k == i {
            1nat
        } else {
            0
        }
    }
}

proof fn lemma_counts_add_up(a: Seq<SwarmWorkV>, b: Seq<SwarmWorkV>, i: int)
    ensures
        finishes(a + b) == finishes(a) + finishes(b),
        stores(a + b, i) == stores(a, i) + stores(b, i),
    decreases b.len(),
{
    if b.len() == 0 {
        assert(a + b =~= a);
    } else {
        assert((a + b).drop_last() =~= a + b.drop_last());
        lemma_counts_add_up(a, b.drop_last(), i);
    }
}

proof fn lemma_starts_count_nothing(indices: Seq<int>, i: int)
    ensures
        finishes(starts(indices)) == 0,
        stores(starts(indices), i) == 0,
    decreases indices.len(),
{
    if indices.len() > 0 {
        assert(starts(indices).drop_last() =~= starts(indices.drop_last()));
        lemma_starts_count_nothing(indices.drop_last(), i);
    }
}

proof fn lemma_settled_counts(v: SwarmV, i: int)
    ensures
        finishes(settled(v).1) == (if settled(v).0.phase == Phase::Over && v.phase != Phase::Over {
            1nat
        } else {
            0
        }),
        stores(settled(v).1, i) == 0,
        settled(v).0.phase == Phase::Broken <==> v.phase == Phase::Broken,
        v.phase == Phase::Over ==> settled(v).0.phase == Phase::Over,
{
    reveal_with_fuel(finishes, 3);
    reveal_with_fuel(stores, 3);
    let pair = seq![SwarmWorkV::CloseReducer].push(SwarmWorkV::Finish);
    assert(pair.drop_last() =~= seq![SwarmWorkV::CloseReducer]);
    assert(seq![SwarmWorkV::CloseReducer].drop_last() =~= Seq::empty());
    assert(seq![SwarmWorkV::Finish].drop_last() =~= Seq::empty());
}

/// Whether a swarm is over.
pub open spec fn is_over(v: SwarmV) -> bool {
    v.phase == Phase::Over || v.phase == Phase::Broken
}

/// What holds of a swarm at any time, with all the works so far.
spec fn sound(v: SwarmV, works: Seq<SwarmWorkV>, total: nat, reduce_fn: Option<Seq<char>>, i: int) -> bool {
    &&& swarm_wf(v)
    &&& v.workers.len() == total
    &&& finishes(works) == (if is_over(v) {
        1nat
    } else {
        0
    })
    &&& 0 <= i < total ==> stores(works, i) == (if v.workers[i] is Finished {
        1nat
    } else {
        0
    })
    &&& v.phase == Phase::Plain ==> reduce_fn is None
    &&& v.phase == Phase::Over ==> all_done(v.workers) && (reduce_fn is Some ==> v.fed == v.results.len())
    &&& v.phase == Phase::Asking ==> all_done(v.workers) && v.fed == v.results.len()
    &&& reduce_fn is None ==> v.phase == Phase::Plain || v.phase == Phase::Over
}

proof fn lemma_sound(total: nat, reduce_fn: Option<Seq<char>>, now: u64, events: Seq<SwarmEvent>, i: int)
    ensures
        sound(
            swarm_run(total, reduce_fn, now, events).0,
            swarm_run(total, reduce_fn, now, events).1,
            total,
            reduce_fn,
            i,
        ),
    decreases events.len(),
{
    if events.len() == 0 {
        let workers = starts(Seq::new(total, |k: int| k));
        lemma_starts_count_nothing(Seq::new(total, |k: int| k), i);
        if reduce_fn is Some {
            assert(workers.push(SwarmWorkV::OpenReducer).drop_last() =~= workers);
        }
    } else {
        lemma_sound(total, reduce_fn, now, events.drop_last(), i);
        let (v, works) = swarm_run(total, reduce_fn, now, events.drop_last());
        let e = events.last();
        let (next, more) = swarm_step(v, e);
        lemma_counts_add_up(works, more, i);
        lemma_step_sound(v, e, total, reduce_fn, i);
    }
}

/// One step keeps what holds of a swarm: it adds a finish where the swarm ends,
/// and a store where a worker finishes.
proof fn lemma_step_sound(v: SwarmV, e: SwarmEvent, total: nat, reduce_fn: Option<Seq<char>>, i: int)
    requires
        swarm_wf(v),
        v.workers.len() == total,
        v.phase == Phase::Plain ==> reduce_fn is None,
        v.phase == Phase::Over ==> all_done(v.workers) && (reduce_fn is Some ==> v.fed == v.results.len()),
        v.phase == Phase::Asking ==> all_done(v.workers) && v.fed == v.results.len(),
        reduce_fn is None ==> v.phase == Phase::Plain || v.phase == Phase::Over,
    ensures
        ({
            let (next, more) = swarm_step(v, e);
            &&& swarm_wf(next)
            &&& next.workers.len() == total
            &&& finishes(more) == (if is_over(next) && !is_over(v) {
                1nat
            } else {
                0
            })
            &&& is_over(v) ==> is_over(next)
            &&& 0 <= i < total ==> stores(more, i) == (if next.workers[i] is Finished && !(v.workers[i] is Finished) {
                1nat
            } else {
                0
            })
            &&& 0 <= i < total && v.workers[i] is Finished ==> next.workers[i] is Finished
            &&& next.phase == Phase::Plain ==> reduce_fn is None
            &&& next.phase == Phase::Over ==> all_done(next.workers) && (reduce_fn is Some ==> next.fed
                == next.results.len())
            &&& next.phase == Phase::Asking ==> all_done(next.workers) && next.fed == next.results.len()
            &&& reduce_fn is None ==> next.phase == Phase::Plain || next.phase == Phase::Over
        }),
{
    reveal_with_fuel(finishes, 3);
    reveal_with_fuel(stores, 3);
    let pair = seq![SwarmWorkV::CloseReducer].push(SwarmWorkV::Finish);
    assert(pair.drop_last() =~= seq![SwarmWorkV::CloseReducer]);
    assert(seq![SwarmWorkV::CloseReducer].drop_last() =~= Seq::empty());
    assert(seq![SwarmWorkV::Finish].drop_last() =~= Seq::empty());
    match e {
        SwarmEvent::WorkerEnded { index, end, elapsed_ms, stored_index, now } => {
            let after = step(v.workers, end_event(index as int, end, now));
            assert forall|k: int| open_worker(after, k) implies open_worker(v.workers, k) by {}
            if end_counts(v.workers, index as int, end) {
                let mid = SwarmV {
                    workers: after,
                    results: with_result(v.results, worker_sent(end, stored_index)),
                    ..v
                };
                let first = seq![SwarmWorkV::Store(index as int, worker_stored(end, elapsed_ms))];
                assert(first.drop_last() =~= Seq::empty());
                lemma_settled_counts(mid, i);
                lemma_counts_add_up(first, settled(mid).1, i);
                assert(v.phase != Phase::Over && v.phase != Phase::Asking);
            }
        },
        SwarmEvent::ReducerOpened => {
            lemma_settled_counts(SwarmV { phase: Phase::Idle, ..v }, i);
        },
        SwarmEvent::ReducerRan(x) => {
            lemma_settled_counts(SwarmV { outcome: absorbed(v.outcome, x@), phase: Phase::Idle, ..v }, i);
        },
        SwarmEvent::Tick(now) => {
            let looked = step(v.workers, Event::Look(now));
            lemma_starts_count_nothing(late_ones(v.workers, now, v.workers.len()), i);
            assert forall|k: int| open_worker(looked, k) == open_worker(v.workers, k) by {}
        },
        _ => {},
    }
}

/// Law: a swarm is finished once, when it is over, and never before.
pub proof fn law_swarm_finishes_once(total: nat, reduce_fn: Option<Seq<char>>, now: u64, events: Seq<SwarmEvent>)
    ensures
        finishes(swarm_run(total, reduce_fn, now, events).1) == (if is_over(swarm_run(total, reduce_fn, now, events).0) {
            1nat
        } else {
            0
        }),
{
    lemma_sound(total, reduce_fn, now, events, 0);
}

/// Law: the end of a worker is stored once, however often it or its backup ends.
pub proof fn law_worker_is_stored_once(
    total: nat,
    reduce_fn: Option<Seq<char>>,
    now: u64,
    events: Seq<SwarmEvent>,
    i: int,
)
    requires
        0 <= i < total,
    ensures
        stores(swarm_run(total, reduce_fn, now, events).1, i) == (if swarm_run(
            total,
            reduce_fn,
            now,
            events,
        ).0.workers[i] is Finished {
            1nat
        } else {
            0
        }),
{
    lemma_sound(total, reduce_fn, now, events, i);
}

/// Law: a swarm that is over, with a session for its reduction, has heard of
/// every worker and has fed every result to its reduction.
pub proof fn law_nothing_is_left_out(total: nat, reduce_fn: Option<Seq<char>>, now: u64, events: Seq<SwarmEvent>)
    requires
        swarm_run(total, reduce_fn, now, events).0.phase == Phase::Over,
    ensures
        all_done(swarm_run(total, reduce_fn, now, events).0.workers),
        reduce_fn is Some ==> swarm_run(total, reduce_fn, now, events).0.fed == swarm_run(
            total,
            reduce_fn,
            now,
            events,
        ).0.results.len(),
{
    lemma_sound(total, reduce_fn, now, events, 0);
}

} // verus!
