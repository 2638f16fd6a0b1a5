//! Laws on the course of the work: the setup of a session, jobs, checkpoints
//! and tools, from the first work to the answer.
use vstd::prelude::*;
use vstd::string::*;
use crate::api::mcp::{
    checkpoint_created, checkpoint_deleted, checkpoint_restored, checkpoints_listed, code_executed, job_got,
    job_submitted, maybe_status, packages_installed, record_name, restore_note, restored_view, session_created,
    session_terminated, status_got, tool_err_value, tool_job_news, Submission, ToolRequest,
};
use crate::api::routes::{checkpoint_made, job_news, maybe_execution, name_of_checkpoint};
use crate::api::session_run::{
    checkpoint_first, checkpoint_step, installation, job_step, setup_step, CheckpointEvent, CheckpointState,
    CheckpointWork, JobEvent, JobPlan, JobState, JobStateV, JobWork, JobWorkV, SetupEvent, SetupNext, SetupOutcome,
    SetupState, SetupWork,
};
use crate::api::tool_run::{first_work, tool_step, ToolEvent, ToolNext, ToolNextV, ToolWork, ToolWorkV};
use crate::billing::{limits_of, plan_of};
use crate::db::{ApiKeyInfo, CheckpointInfo, JobRecord};
use crate::http::{NextV, ResponseV};
use crate::json::{field, JsonV};
use crate::runtime::ExecutionResult;
use crate::sandbox::{Attempt, SessionInfo, SessionStatus};
use crate::text::{maybe_owned, texts};

verus! {

/// Law: a session that is created gets its packages, where there are any, and then its
/// checkpoint, where one is asked for under a key and is recorded: the one of that
/// record is restored into it. What came of each is kept.
pub proof fn law_session_is_set_up(
    packages: Vec<String>,
    id: String,
    keyed: bool,
    info: SessionInfo,
    x: Option<ExecutionResult>,
    c: CheckpointInfo,
    out: Option<(Vec<String>, Option<String>)>,
    why: String,
    asked: Option<String>,
    any: Option<Vec<String>>,
)
    requires
        packages@.len() > 0,
    ensures
        ({
            &&& setup_step(Some(packages), Some(id), true, SetupState::Creating, SetupEvent::Created(Ok(info)))
                matches SetupNext::Do(s0, w0)
            &&& w0 == SetupWork::Install(info.session_id)
            &&& setup_step(Some(packages), Some(id), true, s0, SetupEvent::Installed(x)) matches SetupNext::Do(s1, w1)
            &&& w1 == SetupWork::Find(id)
            &&& setup_step(Some(packages), Some(id), true, s1, SetupEvent::Found(Some(c)))
                matches SetupNext::Do(s2, w2)
            &&& w2 == SetupWork::Restore(info.session_id, c.path)
            &&& setup_step(Some(packages), Some(id), true, s2, SetupEvent::Restored(out)) matches SetupNext::Done(r)
            &&& r == (SetupOutcome { session: Ok(info), installed: x, record: Some(c), restored: out })
        }),
        ({
            &&& setup_step(Some(packages), Some(id), true, SetupState::Creating, SetupEvent::Created(Ok(info)))
                matches SetupNext::Do(s0, w0)
            &&& w0 == SetupWork::Install(info.session_id)
            &&& setup_step(Some(packages), Some(id), true, s0, SetupEvent::Installed(x)) matches SetupNext::Do(s1, w1)
            &&& w1 == SetupWork::Find(id)
            &&& setup_step(Some(packages), Some(id), true, s1, SetupEvent::Found(None)) matches SetupNext::Done(r)
            &&& r == (SetupOutcome { session: Ok(info), installed: x, record: None, restored: None })
        }),
        ({
            &&& setup_step(Some(packages), Some(id), false, SetupState::Creating, SetupEvent::Created(Ok(info)))
                matches SetupNext::Do(s0, w0)
            &&& w0 == SetupWork::Install(info.session_id)
            &&& setup_step(Some(packages), Some(id), false, s0, SetupEvent::Installed(x)) matches SetupNext::Done(r)
            &&& r == (SetupOutcome { session: Ok(info), installed: x, record: None, restored: None })
        }),
        ({
            &&& setup_step(Some(packages), None, keyed, SetupState::Creating, SetupEvent::Created(Ok(info)))
                matches SetupNext::Do(s0, w0)
            &&& w0 == SetupWork::Install(info.session_id)
            &&& setup_step(Some(packages), None, keyed, s0, SetupEvent::Installed(x)) matches SetupNext::Done(r)
            &&& r == (SetupOutcome { session: Ok(info), installed: x, record: None, restored: None })
        }),
        ({
            &&& setup_step(None, Some(id), true, SetupState::Creating, SetupEvent::Created(Ok(info)))
                matches SetupNext::Do(s0, w0)
            &&& w0 == SetupWork::Find(id)
            &&& setup_step(None, Some(id), true, s0, SetupEvent::Found(Some(c))) matches SetupNext::Do(s1, w1)
            &&& w1 == SetupWork::Restore(info.session_id, c.path)
            &&& setup_step(None, Some(id), true, s1, SetupEvent::Restored(out)) matches SetupNext::Done(r)
            &&& r == (SetupOutcome { session: Ok(info), installed: None, record: Some(c), restored: out })
        }),
        ({
            &&& setup_step(None, None, keyed, SetupState::Creating, SetupEvent::Created(Ok(info)))
                matches SetupNext::Done(r)
            &&& r == (SetupOutcome { session: Ok(info), installed: None, record: None, restored: None })
        }),
        ({
            &&& setup_step(None, Some(id), false, SetupState::Creating, SetupEvent::Created(Ok(info)))
                matches SetupNext::Done(r)
            &&& r == (SetupOutcome { session: Ok(info), installed: None, record: None, restored: None })
        }),
        ({
            &&& setup_step(any, asked, keyed, SetupState::Creating, SetupEvent::Created(Err(why)))
                matches SetupNext::Done(r)
            &&& r == (SetupOutcome { session: Err(why), installed: None, record: None, restored: None })
        }),
{
}

/// Law: a session without packages is not given any, whether the list is missing or
/// empty.
pub proof fn law_no_packages_are_not_installed(packages: Vec<String>, info: SessionInfo, keyed: bool)
    requires
        packages@.len() == 0,
    ensures
        ({
            &&& setup_step(Some(packages), None, keyed, SetupState::Creating, SetupEvent::Created(Ok(info)))
                matches SetupNext::Done(r)
            &&& r == (SetupOutcome { session: Ok(info), installed: None, record: None, restored: None })
        }),
{
}

/// Law: what came of an installation is told as it is.
pub proof fn law_installation_is_told_as_it_went(o: SetupOutcome)
    ensures
        o.installed matches Some(x) ==> installation(o) == Some(x@),
        o.installed is None ==> installation(o) is None,
{
}

/// Law: a job is run, what came of it is stored, and, where an address is given, that
/// is posted there, in the form of the kind of the job; then it is over.
pub proof fn law_job_is_run_stored_and_told(plan: JobPlan, x: ExecutionResult, url: String)
    ensures
        plan.webhook_url == Some(url) && plan.kind is Request ==> ({
            let (s0, w0) = job_step(plan, JobStateV::Marking, JobEvent::Marked);
            let (s1, w1) = job_step(plan, s0, JobEvent::Ran(x));
            let (s2, w2) = job_step(plan, s1, JobEvent::Stored);
            let (s3, w3) = job_step(plan, s2, JobEvent::Posted);
            &&& w0 == JobWorkV::Execute
            &&& w1 == JobWorkV::Store(x)
            &&& w2 == JobWorkV::Post(url@, job_news(plan.job_id@, x))
            &&& w3 == JobWorkV::Stop
        }),
        plan.webhook_url == Some(url) && plan.kind is Tool ==> ({
            let (s0, w0) = job_step(plan, JobStateV::Marking, JobEvent::Marked);
            let (s1, w1) = job_step(plan, s0, JobEvent::Ran(x));
            let (s2, w2) = job_step(plan, s1, JobEvent::Stored);
            let (s3, w3) = job_step(plan, s2, JobEvent::Posted);
            &&& w0 == JobWorkV::Execute
            &&& w1 == JobWorkV::Store(x)
            &&& w2 == JobWorkV::Post(url@, tool_job_news(plan.job_id@, x))
            &&& w3 == JobWorkV::Stop
        }),
        plan.webhook_url is None ==> ({
            let (s0, w0) = job_step(plan, JobStateV::Marking, JobEvent::Marked);
            let (s1, w1) = job_step(plan, s0, JobEvent::Ran(x));
            let (s2, w2) = job_step(plan, s1, JobEvent::Stored);
            &&& w0 == JobWorkV::Execute
            &&& w1 == JobWorkV::Store(x)
            &&& w2 == JobWorkV::Stop
        }),
{
}

/// Law: the works and the states of a job are known by what they carry.
pub proof fn law_job_works_keep_what_they_carry(w: JobWork, s: JobState)
    ensures
        w is Wait ==> w@ is Wait,
        w is MarkRunning ==> w@ is MarkRunning,
        w is Execute ==> w@ is Execute,
        w is Stop ==> w@ is Stop,
        w matches JobWork::Store(x) ==> w@ == JobWorkV::Store(x),
        w matches JobWork::Post(url, j) ==> w@ == JobWorkV::Post(url@, j@),
        s is Marking ==> s@ is Marking,
        s is Executing ==> s@ is Executing,
        s is Posting ==> s@ is Posting,
        s is Over ==> s@ is Over,
        s matches JobState::Finishing(Some(j)) ==> s@ == JobStateV::Finishing(Some(j@)),
        s matches JobState::Finishing(None) ==> s@ == JobStateV::Finishing(None),
{
}

/// Law: a checkpoint under a key with storage left is saved, recorded with its size,
/// and answered by whether it was recorded; one that cannot be saved is not recorded,
/// and is answered with the reason.
pub proof fn law_checkpoint_is_saved_and_recorded(
    id: Seq<char>,
    name: Seq<char>,
    i: ApiKeyInfo,
    used: u64,
    size: u64,
    stored: bool,
    e: String,
)
    requires
        used < limits_of(plan_of(i.tier@)).checkpoint_storage_bytes,
    ensures
        checkpoint_first(true) == NextV::<CheckpointState, CheckpointWork>::Do(
            CheckpointState::Finding,
            CheckpointWork::Find,
        ),
        ({
            &&& checkpoint_step(id, name, CheckpointState::Finding, CheckpointEvent::Found(true))
                matches NextV::Do(s0, w0)
            &&& w0 == CheckpointWork::Identify
            &&& checkpoint_step(id, name, s0, CheckpointEvent::Identified(Some(i))) matches NextV::Do(s1, w1)
            &&& w1 == CheckpointWork::Measure
            &&& checkpoint_step(id, name, s1, CheckpointEvent::Measured(used)) matches NextV::Do(s2, w2)
            &&& w2 == CheckpointWork::Save
            &&& checkpoint_step(id, name, s2, CheckpointEvent::Saved(Attempt::Ran((size, None))))
                matches NextV::Do(s3, w3)
            &&& w3 == CheckpointWork::Store(size)
            &&& checkpoint_step(id, name, s3, CheckpointEvent::Stored(stored)) matches NextV::Answer(r)
            &&& r == checkpoint_made(id, name, Attempt::Ran((size, None)), stored, limits_of(plan_of(i.tier@)), used)
        }),
        ({
            &&& checkpoint_step(id, name, CheckpointState::Finding, CheckpointEvent::Found(true))
                matches NextV::Do(s0, w0)
            &&& w0 == CheckpointWork::Identify
            &&& checkpoint_step(id, name, s0, CheckpointEvent::Identified(Some(i))) matches NextV::Do(s1, w1)
            &&& w1 == CheckpointWork::Measure
            &&& checkpoint_step(id, name, s1, CheckpointEvent::Measured(used)) matches NextV::Do(s2, w2)
            &&& w2 == CheckpointWork::Save
            &&& checkpoint_step(id, name, s2, CheckpointEvent::Saved(Attempt::Ran((size, Some(e)))))
                matches NextV::Answer(r)
            &&& r matches ResponseV::Json(200, v) && field(v, "error"@) == Some(JsonV::Str(e@))
        }),
        ({
            &&& checkpoint_step(id, name, CheckpointState::Finding, CheckpointEvent::Found(true))
                matches NextV::Do(s0, w0)
            &&& w0 == CheckpointWork::Identify
            &&& checkpoint_step(id, name, s0, CheckpointEvent::Identified(Some(i))) matches NextV::Do(s1, w1)
            &&& w1 == CheckpointWork::Measure
            &&& checkpoint_step(id, name, s1, CheckpointEvent::Measured(used)) matches NextV::Do(s2, w2)
            &&& w2 == CheckpointWork::Save
            &&& checkpoint_step(id, name, s2, CheckpointEvent::Saved(Attempt::NoSession)) matches NextV::Answer(r)
            &&& r == ResponseV::Status(404)
        }),
        ({
            &&& checkpoint_step(id, name, CheckpointState::Finding, CheckpointEvent::Found(true))
                matches NextV::Do(s0, w0)
            &&& w0 == CheckpointWork::Identify
            &&& checkpoint_step(id, name, s0, CheckpointEvent::Identified(Some(i))) matches NextV::Do(s1, w1)
            &&& w1 == CheckpointWork::Measure
            &&& checkpoint_step(id, name, s1, CheckpointEvent::Measured(used)) matches NextV::Do(s2, w2)
            &&& w2 == CheckpointWork::Save
            &&& checkpoint_step(id, name, s2, CheckpointEvent::Saved(Attempt::Busy)) matches NextV::Answer(r)
            &&& r == ResponseV::Status(423)
        }),
{
}

/// Law: a checkpoint without a key, of a session that is not there, under an unknown
/// key or beyond the storage is refused, and nothing is saved.
pub proof fn law_checkpoint_is_refused(id: Seq<char>, name: Seq<char>, i: ApiKeyInfo, used: u64)
    requires
        used >= limits_of(plan_of(i.tier@)).checkpoint_storage_bytes,
    ensures
        checkpoint_first(false) == NextV::<CheckpointState, CheckpointWork>::Answer(ResponseV::Status(401)),
        ({
            &&& checkpoint_step(id, name, CheckpointState::Finding, CheckpointEvent::Found(false))
                matches NextV::Answer(r)
            &&& r == ResponseV::Status(404)
        }),
        ({
            &&& checkpoint_step(id, name, CheckpointState::Finding, CheckpointEvent::Found(true))
                matches NextV::Do(s0, w0)
            &&& w0 == CheckpointWork::Identify
            &&& checkpoint_step(id, name, s0, CheckpointEvent::Identified(None)) matches NextV::Answer(r)
            &&& r == ResponseV::Status(401)
        }),
        ({
            &&& checkpoint_step(id, name, CheckpointState::Finding, CheckpointEvent::Found(true))
                matches NextV::Do(s0, w0)
            &&& w0 == CheckpointWork::Identify
            &&& checkpoint_step(id, name, s0, CheckpointEvent::Identified(Some(i))) matches NextV::Do(s1, w1)
            &&& w1 == CheckpointWork::Measure
            &&& checkpoint_step(id, name, s1, CheckpointEvent::Measured(used)) matches NextV::Answer(r)
            &&& r matches ResponseV::Json(507, _)
        }),
{
}

/// Law: each tool begins with its own work.
pub proof fn law_tools_do_their_own_work(
    sid: String,
    cid: String,
    code: String,
    packages: Vec<String>,
    url: Option<String>,
    name: Option<String>,
    ttl: Option<i64>,
    install: Option<Vec<String>>,
    restore: Option<String>,
)
    ensures
        first_work((ToolRequest::ExecuteCode { session_id: sid, code: code })).1 == ToolWorkV::Execute,
        first_work((ToolRequest::InstallPackages { session_id: sid, packages: packages })).1 == ToolWorkV::Install,
        first_work((ToolRequest::SubmitJob { session_id: sid, code: code, webhook_url: url })).1 == ToolWorkV::Seek,
        first_work((ToolRequest::GetJob { job_id: sid })).1 == ToolWorkV::GetJob,
        first_work((ToolRequest::SessionStatus { session_id: sid })).1 == ToolWorkV::GetStatus,
        first_work((ToolRequest::TerminateSession { session_id: sid })).1 == ToolWorkV::EndSession,
        first_work((ToolRequest::CreateCheckpoint { session_id: sid, name: name })).1 == ToolWorkV::Save,
        first_work((ToolRequest::RestoreCheckpoint { session_id: sid, checkpoint_id: cid })).1 == ToolWorkV::Find,
        first_work(ToolRequest::ListCheckpoints).1 == ToolWorkV::List,
        first_work((ToolRequest::DeleteCheckpoint { checkpoint_id: cid })).1 == ToolWorkV::Find,
        first_work((ToolRequest::CreateSession { ttl: ttl, install: install, restore: restore })).1 == ToolWorkV::Setup(
            SetupWork::Create,
        ),
{
}

/// Law: code, packages, a job, a status, a termination and a list are answered with
/// what came of them, for the session or the job that was asked for.
pub proof fn law_tools_answer_what_came_of_them(
    sid: String,
    code: String,
    packages: Vec<String>,
    fresh: String,
    a: Attempt<ExecutionResult>,
    x: ExecutionResult,
    j: JobRecord,
    st: SessionStatus,
    done: bool,
    list: Vec<CheckpointInfo>,
)
    ensures
        ({
            &&& tool_step(
                (ToolRequest::ExecuteCode { session_id: sid, code: code }),
                fresh,
                first_work((ToolRequest::ExecuteCode { session_id: sid, code: code })).0,
                ToolEvent::Ran(a),
            )
                matches ToolNextV::Answer(r)
            &&& r == code_executed(sid@, a)
        }),
        ({
            &&& tool_step(
                (ToolRequest::InstallPackages { session_id: sid, packages: packages }),
                fresh,
                first_work((ToolRequest::InstallPackages { session_id: sid, packages: packages })).0,
                ToolEvent::Installed(Some(x)),
            )
                matches ToolNextV::Answer(r)
            &&& r == packages_installed(texts(packages@), Some(x@))
        }),
        ({
            &&& tool_step(
                (ToolRequest::InstallPackages { session_id: sid, packages: packages }),
                fresh,
                first_work((ToolRequest::InstallPackages { session_id: sid, packages: packages })).0,
                ToolEvent::Installed(None),
            )
                matches ToolNextV::Answer(r)
            &&& r == packages_installed(texts(packages@), None)
        }),
        ({
            &&& tool_step(
                (ToolRequest::GetJob { job_id: sid }),
                fresh,
                first_work((ToolRequest::GetJob { job_id: sid })).0,
                ToolEvent::Got(Some(j)),
            )
                matches ToolNextV::Answer(r)
            &&& r == job_got(sid@, Some(&j))
        }),
        ({
            &&& tool_step(
                (ToolRequest::GetJob { job_id: sid }),
                fresh,
                first_work((ToolRequest::GetJob { job_id: sid })).0,
                ToolEvent::Got(None),
            )
                matches ToolNextV::Answer(r)
            &&& r == job_got(sid@, None)
        }),
        ({
            &&& tool_step(
                (ToolRequest::SessionStatus { session_id: sid }),
                fresh,
                first_work((ToolRequest::SessionStatus { session_id: sid })).0,
                ToolEvent::Told(Some(st)),
            )
                matches ToolNextV::Answer(r)
            &&& r == status_got(sid@, Some(st@))
        }),
        ({
            &&& tool_step(
                (ToolRequest::SessionStatus { session_id: sid }),
                fresh,
                first_work((ToolRequest::SessionStatus { session_id: sid })).0,
                ToolEvent::Told(None),
            )
                matches ToolNextV::Answer(r)
            &&& r == status_got(sid@, None)
        }),
        ({
            &&& tool_step(
                (ToolRequest::TerminateSession { session_id: sid }),
                fresh,
                first_work((ToolRequest::TerminateSession { session_id: sid })).0,
                ToolEvent::Ended(done),
            )
                matches ToolNextV::Answer(r)
            &&& r == session_terminated(sid@, done)
        }),
        ({
            &&& tool_step(
                ToolRequest::ListCheckpoints,
                fresh,
                first_work(ToolRequest::ListCheckpoints).0,
                ToolEvent::Listed(list),
            )
                matches ToolNextV::Answer(r)
            &&& r == checkpoints_listed(list@)
        }),
{
}

/// Law: a job is submitted where its session is there: it is stored, then started, and
/// answered with its new id; what stops it is answered.
pub proof fn law_tool_submits_a_job(
    sid: String,
    code: String,
    url: Option<String>,
    fresh: String,
    why: String,
)
    ensures
        ({
            &&& tool_step(
                (ToolRequest::SubmitJob { session_id: sid, code: code, webhook_url: url }),
                fresh,
                first_work((ToolRequest::SubmitJob { session_id: sid, code: code, webhook_url: url })).0,
                ToolEvent::Sought(true),
            )
                matches ToolNextV::Do(s0, w0)
            &&& w0 == ToolWorkV::StoreJob
            &&& tool_step(
                (ToolRequest::SubmitJob { session_id: sid, code: code, webhook_url: url }),
                fresh,
                s0,
                ToolEvent::JobStored(Ok(())),
            )
                matches ToolNextV::Do(s1, w1)
            &&& w1 == ToolWorkV::StartJob
            &&& tool_step(
                (ToolRequest::SubmitJob { session_id: sid, code: code, webhook_url: url }),
                fresh,
                s1,
                ToolEvent::JobStarted,
            )
                matches ToolNextV::Answer(r)
            &&& r == job_submitted(Submission::Queued(fresh))
        }),
        ({
            &&& tool_step(
                (ToolRequest::SubmitJob { session_id: sid, code: code, webhook_url: url }),
                fresh,
                first_work((ToolRequest::SubmitJob { session_id: sid, code: code, webhook_url: url })).0,
                ToolEvent::Sought(true),
            )
                matches ToolNextV::Do(s0, w0)
            &&& w0 == ToolWorkV::StoreJob
            &&& tool_step(
                (ToolRequest::SubmitJob { session_id: sid, code: code, webhook_url: url }),
                fresh,
                s0,
                ToolEvent::JobStored(Err(why)),
            )
                matches ToolNextV::Answer(r)
            &&& r == job_submitted(Submission::Failed(why))
        }),
        ({
            &&& tool_step(
                (ToolRequest::SubmitJob { session_id: sid, code: code, webhook_url: url }),
                fresh,
                first_work((ToolRequest::SubmitJob { session_id: sid, code: code, webhook_url: url })).0,
                ToolEvent::Sought(false),
            )
                matches ToolNextV::Answer(r)
            &&& r == job_submitted(Submission::NoSession)
        }),
{
}

/// Law: a checkpoint that a tool saved is recorded under its name with its size, and
/// answered with its new id by whether it was recorded; one that was not saved is not
/// recorded.
pub proof fn law_tool_makes_a_checkpoint(
    sid: String,
    name: Option<String>,
    fresh: String,
    size: u64,
    saved: Result<(), String>,
    e: String,
)
    ensures
        ({
            &&& tool_step(
                (ToolRequest::CreateCheckpoint { session_id: sid, name: name }),
                fresh,
                first_work((ToolRequest::CreateCheckpoint { session_id: sid, name: name })).0,
                ToolEvent::Saved(Attempt::Ran((size, None))),
            )
                matches ToolNextV::Do(s0, w0)
            &&& w0 == ToolWorkV::Record(name_of_checkpoint(maybe_owned(name), fresh@), size)
            &&& tool_step(
                (ToolRequest::CreateCheckpoint { session_id: sid, name: name }),
                fresh,
                s0,
                ToolEvent::Recorded(saved),
            )
                matches ToolNextV::Answer(r)
            &&& r == checkpoint_created(
                fresh@,
                name_of_checkpoint(maybe_owned(name), fresh@),
                Attempt::Ran((size, None)),
                saved,
            )
        }),
        ({
            &&& tool_step(
                (ToolRequest::CreateCheckpoint { session_id: sid, name: name }),
                fresh,
                first_work((ToolRequest::CreateCheckpoint { session_id: sid, name: name })).0,
                ToolEvent::Saved(Attempt::Ran((size, Some(e)))),
            )
                matches ToolNextV::Answer(r)
            &&& r == tool_err_value("Checkpoint failed: "@ + e@)
        }),
        ({
            &&& tool_step(
                (ToolRequest::CreateCheckpoint { session_id: sid, name: name }),
                fresh,
                first_work((ToolRequest::CreateCheckpoint { session_id: sid, name: name })).0,
                ToolEvent::Saved(Attempt::NoSession),
            )
                matches ToolNextV::Answer(r)
            &&& r == tool_err_value("Session not found"@)
        }),
        ({
            &&& tool_step(
                (ToolRequest::CreateCheckpoint { session_id: sid, name: name }),
                fresh,
                first_work((ToolRequest::CreateCheckpoint { session_id: sid, name: name })).0,
                ToolEvent::Saved(Attempt::Busy),
            )
                matches ToolNextV::Answer(r)
            &&& r == tool_err_value("Session is busy"@)
        }),
{
}

/// Law: a checkpoint that is recorded is restored from its own file; one that is
/// deleted loses its own file first, where it is recorded, and is answered by whether
/// there was one.
pub proof fn law_tool_restores_and_deletes_a_checkpoint(
    sid: String,
    cid: String,
    fresh: String,
    c: CheckpointInfo,
    a: Attempt<(Vec<String>, Option<String>)>,
    done: bool,
)
    ensures
        ({
            &&& tool_step(
                (ToolRequest::RestoreCheckpoint { session_id: sid, checkpoint_id: cid }),
                fresh,
                first_work((ToolRequest::RestoreCheckpoint { session_id: sid, checkpoint_id: cid })).0,
                ToolEvent::Found(Some(c)),
            )
                matches ToolNextV::Do(s0, w0)
            &&& w0 == ToolWorkV::Restore(c.path@)
            &&& tool_step(
                (ToolRequest::RestoreCheckpoint { session_id: sid, checkpoint_id: cid }),
                fresh,
                s0,
                ToolEvent::Restored(a),
            )
                matches ToolNextV::Answer(r)
            &&& r == checkpoint_restored(cid@, Some(&c), a)
        }),
        ({
            &&& tool_step(
                (ToolRequest::RestoreCheckpoint { session_id: sid, checkpoint_id: cid }),
                fresh,
                first_work((ToolRequest::RestoreCheckpoint { session_id: sid, checkpoint_id: cid })).0,
                ToolEvent::Found(None),
            )
                matches ToolNextV::Answer(r)
            &&& r == tool_err_value("Checkpoint '"@ + cid@ + "' not found"@)
        }),
        ({
            &&& tool_step(
                (ToolRequest::DeleteCheckpoint { checkpoint_id: cid }),
                fresh,
                first_work((ToolRequest::DeleteCheckpoint { checkpoint_id: cid })).0,
                ToolEvent::Found(Some(c)),
            )
                matches ToolNextV::Do(s0, w0)
            &&& w0 == ToolWorkV::Remove(c.path@)
            &&& tool_step((ToolRequest::DeleteCheckpoint { checkpoint_id: cid }), fresh, s0, ToolEvent::Removed)
                matches ToolNextV::Do(s1, w1)
            &&& w1 == ToolWorkV::Delete
            &&& tool_step(
                (ToolRequest::DeleteCheckpoint { checkpoint_id: cid }),
                fresh,
                s1,
                ToolEvent::Deleted(done),
            )
                matches ToolNextV::Answer(r)
            &&& r == checkpoint_deleted(cid@, done)
        }),
        ({
            &&& tool_step(
                (ToolRequest::DeleteCheckpoint { checkpoint_id: cid }),
                fresh,
                first_work((ToolRequest::DeleteCheckpoint { checkpoint_id: cid })).0,
                ToolEvent::Found(None),
            )
                matches ToolNextV::Do(s0, w0)
            &&& w0 == ToolWorkV::Delete
            &&& tool_step(
                (ToolRequest::DeleteCheckpoint { checkpoint_id: cid }),
                fresh,
                s0,
                ToolEvent::Deleted(done),
            )
                matches ToolNextV::Answer(r)
            &&& r == checkpoint_deleted(cid@, done)
        }),
{
}

/// Law: a session that a tool creates is set up with its packages and its checkpoint,
/// and is answered with what came of it.
pub proof fn law_tool_creates_a_session(
    ttl: Option<i64>,
    packages: Vec<String>,
    id: String,
    fresh: String,
    info: SessionInfo,
    x: Option<ExecutionResult>,
    c: CheckpointInfo,
    vars: Vec<String>,
    e: Option<String>,
    why: String,
    install: Option<Vec<String>>,
    restore: Option<String>,
)
    requires
        packages@.len() > 0,
    ensures
        ({
            &&& tool_step(
                ToolRequest::CreateSession { ttl: ttl, install: Some(packages), restore: Some(id) },
                fresh,
                first_work(ToolRequest::CreateSession { ttl: ttl, install: Some(packages), restore: Some(id) }).0,
                ToolEvent::Setup(SetupEvent::Created(Ok(info))),
            )
                matches ToolNextV::Do(s0, w0)
            &&& w0 == ToolWorkV::Setup(SetupWork::Install(info.session_id))
            &&& tool_step(
                ToolRequest::CreateSession { ttl: ttl, install: Some(packages), restore: Some(id) },
                fresh,
                s0,
                ToolEvent::Setup(SetupEvent::Installed(x)),
            )
                matches ToolNextV::Do(s1, w1)
            &&& w1 == ToolWorkV::Setup(SetupWork::Find(id))
            &&& tool_step(
                ToolRequest::CreateSession { ttl: ttl, install: Some(packages), restore: Some(id) },
                fresh,
                s1,
                ToolEvent::Setup(SetupEvent::Found(Some(c))),
            )
                matches ToolNextV::Do(s2, w2)
            &&& w2 == ToolWorkV::Setup(SetupWork::Restore(info.session_id, c.path))
            &&& tool_step(
                ToolRequest::CreateSession { ttl: ttl, install: Some(packages), restore: Some(id) },
                fresh,
                s2,
                ToolEvent::Setup(SetupEvent::Restored(Some((vars, e)))),
            )
                matches ToolNextV::Answer(r)
            &&& r == session_created(
                Ok(info),
                restore_note(Some(id@), Some(c.name@), Some((texts(vars@), maybe_owned(e)))),
            )
        }),
        ({
            &&& tool_step(
                ToolRequest::CreateSession { ttl: ttl, install: Some(packages), restore: Some(id) },
                fresh,
                first_work(ToolRequest::CreateSession { ttl: ttl, install: Some(packages), restore: Some(id) }).0,
                ToolEvent::Setup(SetupEvent::Created(Ok(info))),
            )
                matches ToolNextV::Do(s0, w0)
            &&& w0 == ToolWorkV::Setup(SetupWork::Install(info.session_id))
            &&& tool_step(
                ToolRequest::CreateSession { ttl: ttl, install: Some(packages), restore: Some(id) },
                fresh,
                s0,
                ToolEvent::Setup(SetupEvent::Installed(x)),
            )
                matches ToolNextV::Do(s1, w1)
            &&& w1 == ToolWorkV::Setup(SetupWork::Find(id))
            &&& tool_step(
                ToolRequest::CreateSession { ttl: ttl, install: Some(packages), restore: Some(id) },
                fresh,
                s1,
                ToolEvent::Setup(SetupEvent::Found(None)),
            )
                matches ToolNextV::Answer(r)
            &&& r == session_created(Ok(info), restore_note(Some(id@), None, None))
        }),
        ({
            &&& tool_step(
                ToolRequest::CreateSession { ttl: ttl, install: None, restore: None },
                fresh,
                first_work(ToolRequest::CreateSession { ttl: ttl, install: None, restore: None }).0,
                ToolEvent::Setup(SetupEvent::Created(Ok(info))),
            )
                matches ToolNextV::Answer(r)
            &&& r == session_created(Ok(info), Seq::empty())
        }),
        ({
            &&& tool_step(
                (ToolRequest::CreateSession { ttl: ttl, install: install, restore: restore }),
                fresh,
                first_work((ToolRequest::CreateSession { ttl: ttl, install: install, restore: restore })).0,
                ToolEvent::Setup(SetupEvent::Created(Err(why))),
            )
                matches ToolNextV::Answer(r)
            &&& r == tool_err_value("Failed to create session: "@ + why@)
        }),
{
}

/// Law: the works of a tool are known by what they carry.
pub proof fn law_tool_works_keep_what_they_carry(w: ToolWork, n: ToolNext)
    ensures
        w is Wait ==> w@ is Wait,
        w is Execute ==> w@ is Execute,
        w is Install ==> w@ is Install,
        w is Seek ==> w@ is Seek,
        w is StoreJob ==> w@ is StoreJob,
        w is StartJob ==> w@ is StartJob,
        w is GetJob ==> w@ is GetJob,
        w is GetStatus ==> w@ is GetStatus,
        w is EndSession ==> w@ is EndSession,
        w is Save ==> w@ is Save,
        w is Find ==> w@ is Find,
        w is List ==> w@ is List,
        w is Delete ==> w@ is Delete,
        w matches ToolWork::Setup(s) ==> w@ == ToolWorkV::Setup(s),
        w matches ToolWork::Record(n, size) ==> w@ == ToolWorkV::Record(n@, size),
        w matches ToolWork::Restore(p) ==> w@ == ToolWorkV::Restore(p@),
        w matches ToolWork::Remove(p) ==> w@ == ToolWorkV::Remove(p@),
        n matches ToolNext::Do(s, k) ==> n@ == ToolNextV::Do(s, k@),
        n matches ToolNext::Answer(j) ==> n@ == ToolNextV::Answer(j@),
{
}

/// Law: of a record, a status, an execution or a restoration that may be missing, what
/// is there is told as it is.
pub proof fn law_records_lend_what_they_hold(
    c: CheckpointInfo,
    s: SessionStatus,
    x: ExecutionResult,
    vars: Vec<String>,
    e: Option<String>,
)
    ensures
        record_name(Some(&c)) == Some(c.name@) && record_name(None) is None,
        maybe_status(Some(&s)) == Some(s@) && maybe_status(None) is None,
        maybe_execution(Some(&x)) == Some(x@) && maybe_execution(None) is None,
        restored_view(Some((vars, e))) == Some((texts(vars@), maybe_owned(e))) && restored_view(None) is None,
{
}

} // verus!
