//! How a session is set up, how a background job is carried out, and how a
//! checkpoint is made: which work follows which event. Whoever runs these
//! machines does the work and hands back what came of it.
use vstd::prelude::*;
use crate::api::mcp::{job_webhook as tool_job_webhook, tool_job_news};
use crate::api::routes::{
    admit_checkpoint, checkpoint_entry, checkpoint_made, create_checkpoint, create_session, job_news, job_webhook,
    restore_of_request, restore_outcome, session_created, CheckpointEntry, Restore,
};
use crate::billing::PlanLimits;
use crate::db::{ApiKeyInfo, CheckpointInfo};
use crate::http::{Next, NextV, Response, ResponseV, NOT_FOUND, UNAUTHORIZED};
use crate::json::{Json, JsonV};
use crate::runtime::{ExecutionResult, ExecutionV};
use crate::sandbox::{Attempt, SessionInfo};

verus! {

// ── Setting up a session ────────────────────────────────

/// How far a session has come. What the installation gave goes along, where the
/// session was still there for it.
pub enum SetupState {
    Creating,
    Installing(SessionInfo),
    Finding(SessionInfo, Option<ExecutionResult>),
    Restoring(SessionInfo, Option<ExecutionResult>, CheckpointInfo),
}

/// What happened to a session that is set up.
pub enum SetupEvent {
    Created(Result<SessionInfo, String>),
    /// What the installation gave; nothing where the session was gone.
    Installed(Option<ExecutionResult>),
    Found(Option<CheckpointInfo>),
    /// The restored variables and an error; nothing where the session was gone.
    Restored(Option<(Vec<String>, Option<String>)>),
}

/// What is to be done for a session that is set up.
pub enum SetupWork {
    /// Nothing yet.
    Wait,
    Create,
    /// Install the packages asked for in this session.
    Install(String),
    /// Look up the checkpoint with this identifier.
    Find(String),
    /// Restore in this session the checkpoint in this file.
    Restore(String, String),
}

/// What came of a session that was set up.
pub struct SetupOutcome {
    pub session: Result<SessionInfo, String>,
    pub installed: Option<ExecutionResult>,
    pub record: Option<CheckpointInfo>,
    pub restored: Option<(Vec<String>, Option<String>)>,
}

/// What follows an event in the setup of a session.
pub enum SetupNext {
    Do(SetupState, SetupWork),
    Done(SetupOutcome),
}

/// Whether packages are asked for.
pub open spec fn has_packages(packages: Option<Vec<String>>) -> bool {
    packages matches Some(p) && p@.len() > 0
}

/// What follows the installation of packages: the checkpoint asked for is looked
/// up, where there is a key to do so.
pub open spec fn after_install(
    checkpoint_id: Option<String>,
    keyed: bool,
    info: SessionInfo,
    installed: Option<ExecutionResult>,
) -> SetupNext {
    match checkpoint_id {
        Some(id) => if keyed {
            SetupNext::Do(SetupState::Finding(info, installed), SetupWork::Find(id))
        } else {
            SetupNext::Done(SetupOutcome { session: Ok(info), installed, record: None, restored: None })
        },
        None => SetupNext::Done(SetupOutcome { session: Ok(info), installed, record: None, restored: None }),
    }
}

/// What follows an event: a session is created, the packages asked for are
/// installed, where there are any, and then the checkpoint asked for is restored,
/// where it is found. An event that does not belong to the state changes nothing.
pub open spec fn setup_step(
    packages: Option<Vec<String>>,
    checkpoint_id: Option<String>,
    keyed: bool,
    s: SetupState,
    e: SetupEvent,
) -> SetupNext {
    match (s, e) {
        (SetupState::Creating, SetupEvent::Created(Err(e))) => SetupNext::Done(
            SetupOutcome { session: Err(e), installed: None, record: None, restored: None },
        ),
        (SetupState::Creating, SetupEvent::Created(Ok(info))) => if has_packages(packages) {
            SetupNext::Do(SetupState::Installing(info), SetupWork::Install(info.session_id))
        } else {
            after_install(checkpoint_id, keyed, info, None)
        },
        (SetupState::Installing(info), SetupEvent::Installed(x)) => after_install(checkpoint_id, keyed, info, x),
        (SetupState::Finding(info, x), SetupEvent::Found(None)) => SetupNext::Done(
            SetupOutcome { session: Ok(info), installed: x, record: None, restored: None },
        ),
        (SetupState::Finding(info, x), SetupEvent::Found(Some(c))) => SetupNext::Do(
            SetupState::Restoring(info, x, c),
            SetupWork::Restore(info.session_id, c.path),
        ),
        (SetupState::Restoring(info, x, c), SetupEvent::Restored(r)) => SetupNext::Done(
            SetupOutcome { session: Ok(info), installed: x, record: Some(c), restored: r },
        ),
        _ => SetupNext::Do(s, SetupWork::Wait),
    }
}

/// The first state and work of a setup.
pub fn setup_begin() -> (r: (SetupState, SetupWork))
    ensures
        r == (SetupState::Creating, SetupWork::Create),
{
    (SetupState::Creating, SetupWork::Create)
}

/// What follows the installation of packages.
fn installed_next(
    checkpoint_id: &Option<String>,
    keyed: bool,
    info: SessionInfo,
    installed: Option<ExecutionResult>,
) -> (r: SetupNext)
    ensures
        r == after_install(*checkpoint_id, keyed, info, installed),
{
    match checkpoint_id {
        Some(id) => if keyed {
            return SetupNext::Do(SetupState::Finding(info, installed), SetupWork::Find(id.clone()));
        },
        None => {},
    }
    SetupNext::Done(SetupOutcome { session: Ok(info), installed, record: None, restored: None })
}

/// What follows an event, for the packages and the checkpoint that were asked
/// for, and whether there is a key to look the checkpoint up with.
pub fn setup_next(
    packages: &Option<Vec<String>>,
    checkpoint_id: &Option<String>,
    keyed: bool,
    s: SetupState,
    e: SetupEvent,
) -> (r: SetupNext)
    ensures
        r == setup_step(*packages, *checkpoint_id, keyed, s, e),
{
    match (s, e) {
        (SetupState::Creating, SetupEvent::Created(Err(e))) => SetupNext::Done(
            SetupOutcome { session: Err(e), installed: None, record: None, restored: None },
        ),
        (SetupState::Creating, SetupEvent::Created(Ok(info))) => {
            let wanted: bool = match packages {
                Some(p) => p.len() > 0,
                None => false,
            };
            if wanted {
                let id: String = info.session_id.clone();
                SetupNext::Do(SetupState::Installing(info), SetupWork::Install(id))
            } else {
                installed_next(checkpoint_id, keyed, info, None)
            }
        },
        (SetupState::Installing(info), SetupEvent::Installed(x)) => installed_next(checkpoint_id, keyed, info, x),
        (SetupState::Finding(info, x), SetupEvent::Found(None)) => SetupNext::Done(
            SetupOutcome { session: Ok(info), installed: x, record: None, restored: None },
        ),
        (SetupState::Finding(info, x), SetupEvent::Found(Some(c))) => {
            let id: String = info.session_id.clone();
            let path: String = c.path.clone();
            SetupNext::Do(SetupState::Restoring(info, x, c), SetupWork::Restore(id, path))
        },
        (SetupState::Restoring(info, x, c), SetupEvent::Restored(r)) => SetupNext::Done(
            SetupOutcome { session: Ok(info), installed: x, record: Some(c), restored: r },
        ),
        (s, _) => SetupNext::Do(s, SetupWork::Wait),
    }
}

/// What the installation gave, by contents.
pub open spec fn installation(o: SetupOutcome) -> Option<ExecutionV> {
    match o.installed {
        Some(x) => Some(x@),
        None => None,
    }
}

/// The answer to a request for a session, from what came of it.
pub fn setup_answer(checkpoint_id: &Option<String>, keyed: bool, o: SetupOutcome) -> (r: Response)
    requires
        o.session matches Ok(info) ==> info.created_at.valid() && info.expires_at.valid(),
    ensures
        r@ == session_created(
            o.session,
            installation(o),
            restore_outcome(*checkpoint_id, keyed, o.record is Some, o.restored),
        ),
{
    let restore: Restore = restore_of_request(checkpoint_id, keyed, o.record.as_ref(), o.restored);
    create_session(&o.session, o.installed.as_ref(), &restore)
}

/// The session of a setup, once it is created.
pub open spec fn setup_session(s: SetupState) -> Option<SessionInfo> {
    match s {
        SetupState::Creating => None,
        SetupState::Installing(info) => Some(info),
        SetupState::Finding(info, _) => Some(info),
        SetupState::Restoring(info, _, _) => Some(info),
    }
}

/// Law: a session that was created is handed over whatever becomes of its
/// packages and its checkpoint.
pub proof fn law_created_session_is_handed_over(
    packages: Option<Vec<String>>,
    checkpoint_id: Option<String>,
    keyed: bool,
    s: SetupState,
    e: SetupEvent,
)
    ensures
        setup_session(s) matches Some(info) ==> match setup_step(packages, checkpoint_id, keyed, s, e) {
            SetupNext::Do(next, _) => setup_session(next) == Some(info),
            SetupNext::Done(o) => o.session == Ok::<SessionInfo, String>(info),
        },
        s is Creating ==> (e matches SetupEvent::Created(Ok(info)) ==> match setup_step(packages, checkpoint_id, keyed, s, e) {
            SetupNext::Do(next, _) => setup_session(next) == Some(info),
            SetupNext::Done(o) => o.session == Ok::<SessionInfo, String>(info),
        }),
{
}

// ── A background job ────────────────────────────────────

/// How a job was submitted.
#[derive(Clone, Copy, PartialEq, Eq, Structural)]
pub enum JobKind {
    Request,
    Tool,
}

/// A job to be carried out.
pub struct JobPlan {
    pub job_id: String,
    pub kind: JobKind,
    pub webhook_url: Option<String>,
}

/// How far a job has come.
pub enum JobState {
    Marking,
    Executing,
    /// Its end is being stored; this is to be posted then.
    Finishing(Option<Json>),
    Posting,
    Over,
}

/// How far a job has come, as mathematics.
pub enum JobStateV {
    Marking,
    Executing,
    Finishing(Option<JsonV>),
    Posting,
    Over,
}

impl View for JobState {
    type V = JobStateV;

    open spec fn view(&self) -> JobStateV {
        match self {
            JobState::Marking => JobStateV::Marking,
            JobState::Executing => JobStateV::Executing,
            JobState::Finishing(Some(j)) => JobStateV::Finishing(Some(j@)),
            JobState::Finishing(None) => JobStateV::Finishing(None),
            JobState::Posting => JobStateV::Posting,
            JobState::Over => JobStateV::Over,
        }
    }
}

/// What happened to a job.
pub enum JobEvent {
    Marked,
    Ran(ExecutionResult),
    Stored,
    Posted,
}

/// What is to be done for a job.
pub enum JobWork {
    /// Nothing yet.
    Wait,
    MarkRunning,
    /// Renew the session when its worker is free, and run the code.
    Execute,
    /// Store the end of the job.
    Store(ExecutionResult),
    /// Post this to this address.
    Post(String, Json),
    Stop,
}

/// What is to be done for a job, as mathematics.
pub enum JobWorkV {
    Wait,
    MarkRunning,
    Execute,
    Store(ExecutionResult),
    Post(Seq<char>, JsonV),
    Stop,
}

impl View for JobWork {
    type V = JobWorkV;

    open spec fn view(&self) -> JobWorkV {
        match self {
            JobWork::Wait => JobWorkV::Wait,
            JobWork::MarkRunning => JobWorkV::MarkRunning,
            JobWork::Execute => JobWorkV::Execute,
            JobWork::Store(x) => JobWorkV::Store(*x),
            JobWork::Post(url, j) => JobWorkV::Post(url@, j@),
            JobWork::Stop => JobWorkV::Stop,
        }
    }
}

/// What is posted when a job is over.
pub open spec fn news(plan: JobPlan, x: ExecutionResult) -> JsonV {
    match plan.kind {
        JobKind::Request => job_news(plan.job_id@, x),
        JobKind::Tool => tool_job_news(plan.job_id@, x),
    }
}

/// The state and the work that follow an event: a job is marked as running, runs
/// once, is stored, and is then posted where that was asked for.
pub open spec fn job_step(plan: JobPlan, s: JobStateV, e: JobEvent) -> (JobStateV, JobWorkV) {
    match (s, e) {
        (JobStateV::Marking, JobEvent::Marked) => (JobStateV::Executing, JobWorkV::Execute),
        (JobStateV::Executing, JobEvent::Ran(x)) => (
            JobStateV::Finishing(
                match plan.webhook_url {
                    Some(_) => Some(news(plan, x)),
                    None => None,
                },
            ),
            JobWorkV::Store(x),
        ),
        (JobStateV::Finishing(news), JobEvent::Stored) => match (news, plan.webhook_url) {
            (Some(v), Some(url)) => (JobStateV::Posting, JobWorkV::Post(url@, v)),
            _ => (JobStateV::Over, JobWorkV::Stop),
        },
        (JobStateV::Posting, JobEvent::Posted) => (JobStateV::Over, JobWorkV::Stop),
        _ => (s, JobWorkV::Wait),
    }
}

/// The first state and work of a job.
pub fn job_begin() -> (r: (JobState, JobWork))
    ensures
        r == (JobState::Marking, JobWork::MarkRunning),
{
    (JobState::Marking, JobWork::MarkRunning)
}

/// The state and the work that follow an event.
pub fn job_next(plan: &JobPlan, s: JobState, e: JobEvent) -> (r: (JobState, JobWork))
    ensures
        (r.0@, r.1@) == job_step(*plan, s@, e),
{
    match (s, e) {
        (JobState::Marking, JobEvent::Marked) => (JobState::Executing, JobWork::Execute),
        (JobState::Executing, JobEvent::Ran(x)) => {
            let news: Option<Json> = match &plan.webhook_url {
                Some(_) => Some(
                    match plan.kind {
                        JobKind::Request => job_webhook(plan.job_id.as_str(), &x),
                        JobKind::Tool => tool_job_webhook(plan.job_id.as_str(), &x),
                    },
                ),
                None => None,
            };
            (JobState::Finishing(news), JobWork::Store(x))
        },
        (JobState::Finishing(news), JobEvent::Stored) => match (news, &plan.webhook_url) {
            (Some(v), Some(url)) => (JobState::Posting, JobWork::Post(url.clone(), v)),
            _ => (JobState::Over, JobWork::Stop),
        },
        (JobState::Posting, JobEvent::Posted) => (JobState::Over, JobWork::Stop),
        (s, _) => (s, JobWork::Wait),
    }
}

/// A job after some events: its state and the work asked for so far.
pub open spec fn job_trace(plan: JobPlan, events: Seq<JobEvent>) -> (JobStateV, Seq<JobWorkV>)
    decreases events.len(),
{
    if events.len() == 0 {
        (JobStateV::Marking, seq![JobWorkV::MarkRunning])
    } else {
        let (s, works) = job_trace(plan, events.drop_last());
        let (next, work) = job_step(plan, s, events.last());
        (next, works.push(work))
    }
}

/// Whether the end `x` of a job was stored at `j`.
pub open spec fn stored_at(works: Seq<JobWorkV>, j: int, x: ExecutionResult) -> bool {
    0 <= j < works.len() && works[j] == JobWorkV::Store(x)
}

/// Whether what is posted is news of an end that was stored before `n`.
pub open spec fn news_of_stored(plan: JobPlan, works: Seq<JobWorkV>, n: int, v: JsonV) -> bool {
    exists|j: int, x: ExecutionResult| j < n && #[trigger] stored_at(works, j, x) && v == news(plan, x)
}

/// What each state says of the work asked for before it.
proof fn lemma_job(plan: JobPlan, events: Seq<JobEvent>) -> (i: int)
    ensures
        ({
            let (s, works) = job_trace(plan, events);
            &&& works.len() == events.len() + 1
            &&& works[0] is MarkRunning
            &&& match s {
                JobStateV::Marking => forall|m: int| 0 <= m < works.len() ==> !(#[trigger] works[m] is Execute),
                _ => 0 < i < works.len() && works[i] is Execute && forall|m: int|
                    0 <= m < works.len() && #[trigger] works[m] is Execute ==> m == i,
            }
            &&& s matches JobStateV::Finishing(Some(v)) ==> news_of_stored(plan, works, works.len() as int, v)
            &&& forall|k: int|
                0 <= k < works.len() && #[trigger] works[k] is Post ==> plan.webhook_url is Some && works[k]->Post_0
                    == plan.webhook_url->Some_0@ && news_of_stored(plan, works, k, works[k]->Post_1)
        }),
    decreases events.len(),
{
    if events.len() == 0 {
        0
    } else {
        let i = lemma_job(plan, events.drop_last());
        let (s, before) = job_trace(plan, events.drop_last());
        let (next, works) = job_trace(plan, events);
        let n = before.len() as int;
        assert(forall|m: int| 0 <= m < n ==> works[m] == before[m]);
        assert forall|k: int| 0 <= k < works.len() && #[trigger] works[k] is Post implies plan.webhook_url is Some
            && works[k]->Post_0 == plan.webhook_url->Some_0@ && news_of_stored(plan, works, k, works[k]->Post_1) by {
            let v = works[k]->Post_1;
            assert(news_of_stored(plan, before, k, v)) by {
                if k < n {
                    assert(before[k] is Post);
                }
            }
            let (j, x) = choose|j: int, x: ExecutionResult|
                j < k && #[trigger] stored_at(before, j, x) && v == news(plan, x);
            assert(stored_at(works, j, x));
        }
        if let JobStateV::Finishing(Some(v)) = next {
            match (s, events.last()) {
                (JobStateV::Executing, JobEvent::Ran(x)) => {
                    assert(stored_at(works, n, x));
                },
                _ => {
                    let (j, x) = choose|j: int, x: ExecutionResult|
                        j < n && #[trigger] stored_at(before, j, x) && v == news(plan, x);
                    assert(stored_at(works, j, x));
                },
            }
        }
        if s is Marking && next is Executing {
            n
        } else {
            i
        }
    }
}

/// Law: the code of a job runs at most once, and not before the job is marked as
/// running.
pub proof fn law_job_runs_once(plan: JobPlan, events: Seq<JobEvent>, a: int, b: int)
    requires
        0 <= a < job_trace(plan, events).1.len(),
        0 <= b < job_trace(plan, events).1.len(),
        job_trace(plan, events).1[a] is Execute,
        job_trace(plan, events).1[b] is Execute,
    ensures
        a == b,
        0 < a,
        job_trace(plan, events).1[0] is MarkRunning,
{
    let i = lemma_job(plan, events);
}

/// Law: what is posted of a job goes to the address that was asked for, and tells
/// of the end that was stored before.
pub proof fn law_posted_news_are_stored(plan: JobPlan, events: Seq<JobEvent>, k: int)
    requires
        0 <= k < job_trace(plan, events).1.len(),
        job_trace(plan, events).1[k] is Post,
    ensures
        plan.webhook_url is Some,
        job_trace(plan, events).1[k]->Post_0 == plan.webhook_url->Some_0@,
        news_of_stored(plan, job_trace(plan, events).1, k, job_trace(plan, events).1[k]->Post_1),
{
    let i = lemma_job(plan, events);
}

// ── A checkpoint ────────────────────────────────────────

/// How far a checkpoint has come. Once they are known, the limits of the plan and
/// the storage in use go along.
pub enum CheckpointState {
    Finding,
    Identifying,
    Measuring(ApiKeyInfo),
    Saving(PlanLimits, u64),
    /// A checkpoint of so many bytes is being recorded.
    Storing(PlanLimits, u64, u64),
}

impl View for CheckpointState {
    type V = CheckpointState;

    open spec fn view(&self) -> CheckpointState {
        *self
    }
}

/// What happened to a checkpoint.
pub enum CheckpointEvent {
    /// Whether there is such a session.
    Found(bool),
    /// What is known of the key.
    Identified(Option<ApiKeyInfo>),
    /// The storage that the key uses.
    Measured(u64),
    Saved(Attempt<(u64, Option<String>)>),
    /// Whether the record was stored.
    Stored(bool),
}

/// What is to be done for a checkpoint.
#[derive(Clone, Copy, PartialEq, Eq, Structural)]
pub enum CheckpointWork {
    /// Nothing yet.
    Wait,
    /// Look the session up.
    Find,
    /// Look the key up.
    Identify,
    Measure,
    /// Save the state of the session, unless its worker is busy.
    Save,
    /// Record a checkpoint of so many bytes.
    Store(u64),
}

impl View for CheckpointWork {
    type V = CheckpointWork;

    open spec fn view(&self) -> CheckpointWork {
        *self
    }
}

/// What a request for a checkpoint begins with: it needs an API key.
pub open spec fn checkpoint_first(keyed: bool) -> NextV<CheckpointState, CheckpointWork> {
    if keyed {
        NextV::Do(CheckpointState::Finding, CheckpointWork::Find)
    } else {
        NextV::Answer(ResponseV::Status(UNAUTHORIZED))
    }
}

/// What follows an event: the session and the key are looked up, the storage in
/// use is held against the plan, and only then is the state saved; a checkpoint
/// that was saved without an error is recorded.
pub open spec fn checkpoint_step(
    id: Seq<char>,
    name: Seq<char>,
    s: CheckpointState,
    e: CheckpointEvent,
) -> NextV<CheckpointState, CheckpointWork> {
    match (s, e) {
        (CheckpointState::Finding, CheckpointEvent::Found(found)) => if found {
            NextV::Do(CheckpointState::Identifying, CheckpointWork::Identify)
        } else {
            NextV::Answer(ResponseV::Status(NOT_FOUND))
        },
        (CheckpointState::Identifying, CheckpointEvent::Identified(info)) => match info {
            Some(i) => NextV::Do(CheckpointState::Measuring(i), CheckpointWork::Measure),
            None => NextV::Answer(ResponseV::Status(UNAUTHORIZED)),
        },
        (CheckpointState::Measuring(i), CheckpointEvent::Measured(used)) => match checkpoint_entry(
            true,
            true,
            Some(i.tier@),
            used,
        ) {
            Ok(limits) => NextV::Do(CheckpointState::Saving(limits, used), CheckpointWork::Save),
            Err(r) => NextV::Answer(r),
        },
        (CheckpointState::Saving(limits, used), CheckpointEvent::Saved(attempt)) => match attempt {
            Attempt::Ran((size, None)) => NextV::Do(
                CheckpointState::Storing(limits, used, size),
                CheckpointWork::Store(size),
            ),
            _ => NextV::Answer(checkpoint_made(id, name, attempt, false, limits, used)),
        },
        (CheckpointState::Storing(limits, used, size), CheckpointEvent::Stored(stored)) => NextV::Answer(
            checkpoint_made(id, name, Attempt::Ran((size, None)), stored, limits, used),
        ),
        _ => NextV::Do(s, CheckpointWork::Wait),
    }
}

/// What a request for a checkpoint begins with, given whether it carries a key.
pub fn checkpoint_begin(keyed: bool) -> (r: Next<CheckpointState, CheckpointWork>)
    ensures
        r@ == checkpoint_first(keyed),
{
    if keyed {
        Next::Do(CheckpointState::Finding, CheckpointWork::Find)
    } else {
        Next::Answer(Response::Status(UNAUTHORIZED))
    }
}

/// What follows an event.
pub fn checkpoint_next(id: &str, name: &str, s: CheckpointState, e: CheckpointEvent) -> (r: Next<
    CheckpointState,
    CheckpointWork,
>)
    ensures
        r@ == checkpoint_step(id@, name@, s, e),
{
    match (s, e) {
        (CheckpointState::Finding, CheckpointEvent::Found(found)) => if found {
            Next::Do(CheckpointState::Identifying, CheckpointWork::Identify)
        } else {
            Next::Answer(Response::Status(NOT_FOUND))
        },
        (CheckpointState::Identifying, CheckpointEvent::Identified(info)) => match info {
            Some(i) => Next::Do(CheckpointState::Measuring(i), CheckpointWork::Measure),
            None => Next::Answer(Response::Status(UNAUTHORIZED)),
        },
        (CheckpointState::Measuring(i), CheckpointEvent::Measured(used)) => match admit_checkpoint(
            true,
            true,
            Some(&i),
            used,
        ) {
            CheckpointEntry::Proceed(limits) => Next::Do(CheckpointState::Saving(limits, used), CheckpointWork::Save),
            CheckpointEntry::Deny(r) => Next::Answer(r),
        },
        (CheckpointState::Saving(limits, used), CheckpointEvent::Saved(attempt)) => match &attempt {
            Attempt::Ran((size, None)) => Next::Do(
                CheckpointState::Storing(limits, used, *size),
                CheckpointWork::Store(*size),
            ),
            _ => Next::Answer(create_checkpoint(id, name, &attempt, false, limits, used)),
        },
        (CheckpointState::Storing(limits, used, size), CheckpointEvent::Stored(stored)) => Next::Answer(
            create_checkpoint(id, name, &Attempt::Ran((size, None)), stored, limits, used),
        ),
        (s, _) => Next::Do(s, CheckpointWork::Wait),
    }
}

/// Law: a state is saved only where the storage in use is below what the plan of
/// the key gives.
pub proof fn law_full_storage_saves_nothing(id: Seq<char>, name: Seq<char>, s: CheckpointState, e: CheckpointEvent)
    requires
        checkpoint_step(id, name, s, e) matches NextV::Do(_, CheckpointWork::Save),
    ensures
        s matches CheckpointState::Measuring(i) && e matches CheckpointEvent::Measured(used) && used
            < crate::billing::limits_of(crate::billing::plan_of(i.tier@)).checkpoint_storage_bytes,
{
}

/// Law: a checkpoint is recorded only after it was saved without an error, with
/// the size that it was saved in.
pub proof fn law_only_saved_checkpoints_are_recorded(
    id: Seq<char>,
    name: Seq<char>,
    s: CheckpointState,
    e: CheckpointEvent,
    size: u64,
)
    requires
        checkpoint_step(id, name, s, e) matches NextV::Do(_, CheckpointWork::Store(n)) && n == size,
    ensures
        e == CheckpointEvent::Saved(Attempt::Ran((size, None))),
{
}

} // verus!
