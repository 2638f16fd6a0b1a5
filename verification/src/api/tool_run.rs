//! How the call of a tool is carried out: which work follows which event.
//! Whoever runs the machine does the work and hands back what came of it.
use vstd::prelude::*;
use crate::api::mcp::{
    checkpoint_created, checkpoint_deleted, checkpoint_restored, checkpoints_listed, code_executed, create_checkpoint_reply,
    create_session_reply, delete_checkpoint_reply, execute_code_reply, get_job_reply, install_packages_reply, job_got,
    job_submitted, list_checkpoints_reply, maybe_status, note_of_restore, packages_installed, record_name,
    restore_checkpoint_reply, restore_note, restored_view, session_created, session_status_reply, session_terminated,
    status_got, submit_job_reply, terminate_session_reply, text_value, tool_err_value, Submission, ToolRequest,
};
use crate::api::routes::{checkpoint_name, maybe_execution, name_of_checkpoint};
use crate::api::session_run::{
    setup_begin, setup_next, setup_session, setup_step, SetupEvent, SetupNext, SetupState, SetupWork,
};
use crate::db::{CheckpointInfo, JobRecord};
use crate::json::{Json, JsonV};
use crate::runtime::ExecutionResult;
use crate::sandbox::{Attempt, SessionStatus};
use crate::text::{maybe_owned, texts};

verus! {

/// How far the call of a tool has come.
pub enum ToolState {
    /// A session is being set up.
    Setting(SetupState),
    Executing,
    Installing,
    /// The session of a job is being looked up.
    Seeking,
    StoringJob,
    StartingJob,
    GettingJob,
    Asking,
    Ending,
    Saving,
    /// A checkpoint of so many bytes is being recorded.
    Recording(u64),
    /// The checkpoint to restore is being looked up.
    Finding,
    Restoring(CheckpointInfo),
    Listing,
    /// The checkpoint to delete is being looked up.
    Locating,
    Removing,
    Deleting,
}

/// What happened to the call of a tool.
pub enum ToolEvent {
    Setup(SetupEvent),
    Ran(Attempt<ExecutionResult>),
    /// What the installation gave; nothing where there was no session.
    Installed(Option<ExecutionResult>),
    /// Whether there is such a session.
    Sought(bool),
    JobStored(Result<(), String>),
    JobStarted,
    Got(Option<JobRecord>),
    Told(Option<SessionStatus>),
    /// Whether there was such a session.
    Ended(bool),
    Saved(Attempt<(u64, Option<String>)>),
    Recorded(Result<(), String>),
    Found(Option<CheckpointInfo>),
    Restored(Attempt<(Vec<String>, Option<String>)>),
    Listed(Vec<CheckpointInfo>),
    Removed,
    /// Whether a record was deleted.
    Deleted(bool),
}

/// What is to be done for the call of a tool. What is not said here stands in the
/// request: which session, which code, which packages, which job or checkpoint.
pub enum ToolWork {
    /// Nothing yet.
    Wait,
    Setup(SetupWork),
    /// Renew the session and run the code, unless its worker is busy.
    Execute,
    /// Install the packages, when the worker of the session is free.
    Install,
    /// Look the session up.
    Seek,
    /// Store the job under the new identifier.
    StoreJob,
    /// Have the job carried out.
    StartJob,
    GetJob,
    GetStatus,
    EndSession,
    /// Save the state of the session under the new identifier, unless its worker
    /// is busy.
    Save,
    /// Record a checkpoint under the new identifier, with this name and of so many
    /// bytes.
    Record(String, u64),
    /// Look up the checkpoint of the request under the key of the caller.
    Find,
    /// Restore the checkpoint in this file, unless the worker is busy.
    Restore(String),
    List,
    /// Remove this file.
    Remove(String),
    Delete,
}

/// What is to be done for the call of a tool, as mathematics.
pub enum ToolWorkV {
    Wait,
    Setup(SetupWork),
    Execute,
    Install,
    Seek,
    StoreJob,
    StartJob,
    GetJob,
    GetStatus,
    EndSession,
    Save,
    Record(Seq<char>, u64),
    Find,
    Restore(Seq<char>),
    List,
    Remove(Seq<char>),
    Delete,
}

impl View for ToolWork {
    type V = ToolWorkV;

    open spec fn view(&self) -> ToolWorkV {
        match self {
            ToolWork::Wait => ToolWorkV::Wait,
            ToolWork::Setup(w) => ToolWorkV::Setup(*w),
            ToolWork::Execute => ToolWorkV::Execute,
            ToolWork::Install => ToolWorkV::Install,
            ToolWork::Seek => ToolWorkV::Seek,
            ToolWork::StoreJob => ToolWorkV::StoreJob,
            ToolWork::StartJob => ToolWorkV::StartJob,
            ToolWork::GetJob => ToolWorkV::GetJob,
            ToolWork::GetStatus => ToolWorkV::GetStatus,
            ToolWork::EndSession => ToolWorkV::EndSession,
            ToolWork::Save => ToolWorkV::Save,
            ToolWork::Record(name, size) => ToolWorkV::Record(name@, *size),
            ToolWork::Find => ToolWorkV::Find,
            ToolWork::Restore(path) => ToolWorkV::Restore(path@),
            ToolWork::List => ToolWorkV::List,
            ToolWork::Remove(path) => ToolWorkV::Remove(path@),
            ToolWork::Delete => ToolWorkV::Delete,
        }
    }
}

/// What follows an event in the call of a tool.
pub enum ToolNext {
    Do(ToolState, ToolWork),
    /// The tool answers this.
    Answer(Json),
}

/// What follows an event in the call of a tool, as mathematics.
pub enum ToolNextV {
    Do(ToolState, ToolWorkV),
    Answer(JsonV),
}

impl View for ToolNext {
    type V = ToolNextV;

    open spec fn view(&self) -> ToolNextV {
        match self {
            ToolNext::Do(s, w) => ToolNextV::Do(*s, w@),
            ToolNext::Answer(j) => ToolNextV::Answer(j@),
        }
    }
}

/// A value by reference, where there is one.
pub open spec fn borrowed<T>(o: &Option<T>) -> Option<&T> {
    match o {
        Some(x) => Some(x),
        None => None,
    }
}

/// The first state and work of a call.
pub open spec fn first_work(request: ToolRequest) -> (ToolState, ToolWorkV) {
    match request {
        ToolRequest::CreateSession { .. } => (
            ToolState::Setting(SetupState::Creating),
            ToolWorkV::Setup(SetupWork::Create),
        ),
        ToolRequest::ExecuteCode { .. } => (ToolState::Executing, ToolWorkV::Execute),
        ToolRequest::InstallPackages { .. } => (ToolState::Installing, ToolWorkV::Install),
        ToolRequest::SubmitJob { .. } => (ToolState::Seeking, ToolWorkV::Seek),
        ToolRequest::GetJob { .. } => (ToolState::GettingJob, ToolWorkV::GetJob),
        ToolRequest::SessionStatus { .. } => (ToolState::Asking, ToolWorkV::GetStatus),
        ToolRequest::TerminateSession { .. } => (ToolState::Ending, ToolWorkV::EndSession),
        ToolRequest::CreateCheckpoint { .. } => (ToolState::Saving, ToolWorkV::Save),
        ToolRequest::RestoreCheckpoint { .. } => (ToolState::Finding, ToolWorkV::Find),
        ToolRequest::ListCheckpoints => (ToolState::Listing, ToolWorkV::List),
        ToolRequest::DeleteCheckpoint { .. } => (ToolState::Locating, ToolWorkV::Find),
    }
}

/// What follows the setup of a session.
pub open spec fn setup_follows(checkpoint_id: Option<String>, next: SetupNext) -> ToolNextV {
    match next {
        SetupNext::Do(s, w) => ToolNextV::Do(ToolState::Setting(s), ToolWorkV::Setup(w)),
        SetupNext::Done(o) => ToolNextV::Answer(
            session_created(
                o.session,
                restore_note(maybe_owned(checkpoint_id), record_name(borrowed(&o.record)), restored_view(o.restored)),
            ),
        ),
    }
}

/// What follows an event, under an identifier that is new. A job is started only
/// once it is stored, a checkpoint is recorded only once it is saved, and its file
/// is removed before its record is deleted. An event that does not belong to the
/// state changes nothing.
pub open spec fn tool_step(request: ToolRequest, fresh: String, s: ToolState, e: ToolEvent) -> ToolNextV {
    match (request, s, e) {
        (ToolRequest::CreateSession { ttl, install, restore }, ToolState::Setting(st), ToolEvent::Setup(ev)) => {
            setup_follows(restore, setup_step(install, restore, true, st, ev))
        },
        (ToolRequest::ExecuteCode { session_id, code }, ToolState::Executing, ToolEvent::Ran(attempt)) => {
            ToolNextV::Answer(code_executed(session_id@, attempt))
        },
        (ToolRequest::InstallPackages { session_id, packages }, ToolState::Installing, ToolEvent::Installed(x)) => {
            ToolNextV::Answer(packages_installed(texts(packages@), maybe_execution(borrowed(&x))))
        },
        (ToolRequest::SubmitJob { session_id, code, webhook_url }, ToolState::Seeking, ToolEvent::Sought(found)) => {
            if found {
                ToolNextV::Do(ToolState::StoringJob, ToolWorkV::StoreJob)
            } else {
                ToolNextV::Answer(job_submitted(Submission::NoSession))
            }
        },
        (ToolRequest::SubmitJob { session_id, code, webhook_url }, ToolState::StoringJob, ToolEvent::JobStored(stored)) => {
            match stored {
                Ok(_) => ToolNextV::Do(ToolState::StartingJob, ToolWorkV::StartJob),
                Err(e) => ToolNextV::Answer(job_submitted(Submission::Failed(e))),
            }
        },
        (ToolRequest::SubmitJob { session_id, code, webhook_url }, ToolState::StartingJob, ToolEvent::JobStarted) => {
            ToolNextV::Answer(job_submitted(Submission::Queued(fresh)))
        },
        (ToolRequest::GetJob { job_id }, ToolState::GettingJob, ToolEvent::Got(job)) => {
            ToolNextV::Answer(job_got(job_id@, borrowed(&job)))
        },
        (ToolRequest::SessionStatus { session_id }, ToolState::Asking, ToolEvent::Told(status)) => {
            ToolNextV::Answer(status_got(session_id@, maybe_status(borrowed(&status))))
        },
        (ToolRequest::TerminateSession { session_id }, ToolState::Ending, ToolEvent::Ended(ended)) => {
            ToolNextV::Answer(session_terminated(session_id@, ended))
        },
        (ToolRequest::CreateCheckpoint { session_id, name }, ToolState::Saving, ToolEvent::Saved(attempt)) => {
            match attempt {
                Attempt::Ran((size, None)) => ToolNextV::Do(
                    ToolState::Recording(size),
                    ToolWorkV::Record(name_of_checkpoint(maybe_owned(name), fresh@), size),
                ),
                _ => ToolNextV::Answer(
                    checkpoint_created(fresh@, name_of_checkpoint(maybe_owned(name), fresh@), attempt, Ok(())),
                ),
            }
        },
        (ToolRequest::CreateCheckpoint { session_id, name }, ToolState::Recording(size), ToolEvent::Recorded(saved)) => {
            ToolNextV::Answer(
                checkpoint_created(
                    fresh@,
                    name_of_checkpoint(maybe_owned(name), fresh@),
                    Attempt::Ran((size, None)),
                    saved,
                ),
            )
        },
        (ToolRequest::RestoreCheckpoint { session_id, checkpoint_id }, ToolState::Finding, ToolEvent::Found(record)) => {
            match record {
                Some(c) => ToolNextV::Do(ToolState::Restoring(c), ToolWorkV::Restore(c.path@)),
                None => ToolNextV::Answer(checkpoint_restored(checkpoint_id@, None, Attempt::NoSession)),
            }
        },
        (ToolRequest::RestoreCheckpoint { session_id, checkpoint_id }, ToolState::Restoring(c), ToolEvent::Restored(attempt)) => {
            ToolNextV::Answer(checkpoint_restored(checkpoint_id@, Some(&c), attempt))
        },
        (ToolRequest::ListCheckpoints, ToolState::Listing, ToolEvent::Listed(list)) => {
            ToolNextV::Answer(checkpoints_listed(list@))
        },
        (ToolRequest::DeleteCheckpoint { checkpoint_id }, ToolState::Locating, ToolEvent::Found(record)) => {
            match record {
                Some(c) => ToolNextV::Do(ToolState::Removing, ToolWorkV::Remove(c.path@)),
                None => ToolNextV::Do(ToolState::Deleting, ToolWorkV::Delete),
            }
        },
        (ToolRequest::DeleteCheckpoint { checkpoint_id }, ToolState::Removing, ToolEvent::Removed) => {
            ToolNextV::Do(ToolState::Deleting, ToolWorkV::Delete)
        },
        (ToolRequest::DeleteCheckpoint { checkpoint_id }, ToolState::Deleting, ToolEvent::Deleted(deleted)) => {
            ToolNextV::Answer(checkpoint_deleted(checkpoint_id@, deleted))
        },
        _ => ToolNextV::Do(s, ToolWorkV::Wait),
    }
}

/// Whether the end of a session that is being set up can be told.
pub open spec fn setting_wf(s: SetupState) -> bool {
    setup_session(s) matches Some(info) ==> info.expires_at.valid()
}

/// Whether the end of a session that a state holds can be told.
pub open spec fn tool_wf(s: ToolState) -> bool {
    s matches ToolState::Setting(st) ==> setting_wf(st)
}

/// Whether the end of a session that an event brings can be told.
pub open spec fn event_wf(e: ToolEvent) -> bool {
    e matches ToolEvent::Setup(SetupEvent::Created(Ok(info))) ==> info.expires_at.valid()
}

/// The first state and work of a call.
pub fn dispatch(request: &ToolRequest) -> (r: (ToolState, ToolWork))
    ensures
        (r.0, r.1@) == first_work(*request),
        tool_wf(r.0),
{
    match request {
        ToolRequest::CreateSession { .. } => {
            let (s, w) = setup_begin();
            (ToolState::Setting(s), ToolWork::Setup(w))
        },
        ToolRequest::ExecuteCode { .. } => (ToolState::Executing, ToolWork::Execute),
        ToolRequest::InstallPackages { .. } => (ToolState::Installing, ToolWork::Install),
        ToolRequest::SubmitJob { .. } => (ToolState::Seeking, ToolWork::Seek),
        ToolRequest::GetJob { .. } => (ToolState::GettingJob, ToolWork::GetJob),
        ToolRequest::SessionStatus { .. } => (ToolState::Asking, ToolWork::GetStatus),
        ToolRequest::TerminateSession { .. } => (ToolState::Ending, ToolWork::EndSession),
        ToolRequest::CreateCheckpoint { .. } => (ToolState::Saving, ToolWork::Save),
        ToolRequest::RestoreCheckpoint { .. } => (ToolState::Finding, ToolWork::Find),
        ToolRequest::ListCheckpoints => (ToolState::Listing, ToolWork::List),
        ToolRequest::DeleteCheckpoint { .. } => (ToolState::Locating, ToolWork::Find),
    }
}

/// What follows the setup of a session.
fn after_setup(checkpoint_id: &Option<String>, next: SetupNext) -> (r: ToolNext)
    requires
        match next {
            SetupNext::Do(s, _) => true,
            SetupNext::Done(o) => o.session matches Ok(info) ==> info.expires_at.valid(),
        },
    ensures
        r@ == setup_follows(*checkpoint_id, next),
{
    match next {
        SetupNext::Do(s, w) => ToolNext::Do(ToolState::Setting(s), ToolWork::Setup(w)),
        SetupNext::Done(o) => {
            let note: String = note_of_restore(checkpoint_id, o.record.as_ref(), &o.restored);
            ToolNext::Answer(create_session_reply(&o.session, note.as_str()))
        },
    }
}

/// What follows an event, under an identifier that is new.
pub fn dispatch_next(request: &ToolRequest, fresh: &String, s: ToolState, e: ToolEvent) -> (r: ToolNext)
    requires
        fresh@.len() >= 8,
        tool_wf(s),
        event_wf(e),
    ensures
        r@ == tool_step(*request, *fresh, s, e),
        r matches ToolNext::Do(next, _) ==> tool_wf(next),
{
    match (request, s, e) {
        (ToolRequest::CreateSession { ttl, install, restore }, ToolState::Setting(st), ToolEvent::Setup(ev)) => {
            let next: SetupNext = setup_next(install, restore, true, st, ev);
            after_setup(restore, next)
        },
        (ToolRequest::ExecuteCode { session_id, .. }, ToolState::Executing, ToolEvent::Ran(attempt)) => {
            ToolNext::Answer(execute_code_reply(session_id.as_str(), &attempt))
        },
        (ToolRequest::InstallPackages { packages, .. }, ToolState::Installing, ToolEvent::Installed(x)) => {
            ToolNext::Answer(install_packages_reply(packages, x.as_ref()))
        },
        (ToolRequest::SubmitJob { .. }, ToolState::Seeking, ToolEvent::Sought(found)) => {
            if found {
                ToolNext::Do(ToolState::StoringJob, ToolWork::StoreJob)
            } else {
                ToolNext::Answer(submit_job_reply(&Submission::NoSession))
            }
        },
        (ToolRequest::SubmitJob { .. }, ToolState::StoringJob, ToolEvent::JobStored(stored)) => {
            match stored {
                Ok(_) => ToolNext::Do(ToolState::StartingJob, ToolWork::StartJob),
                Err(e) => ToolNext::Answer(submit_job_reply(&Submission::Failed(e))),
            }
        },
        (ToolRequest::SubmitJob { .. }, ToolState::StartingJob, ToolEvent::JobStarted) => {
            ToolNext::Answer(submit_job_reply(&Submission::Queued(fresh.clone())))
        },
        (ToolRequest::GetJob { job_id }, ToolState::GettingJob, ToolEvent::Got(job)) => {
            ToolNext::Answer(get_job_reply(job_id.as_str(), job.as_ref()))
        },
        (ToolRequest::SessionStatus { session_id }, ToolState::Asking, ToolEvent::Told(status)) => {
            ToolNext::Answer(session_status_reply(session_id.as_str(), status.as_ref()))
        },
        (ToolRequest::TerminateSession { session_id }, ToolState::Ending, ToolEvent::Ended(ended)) => {
            ToolNext::Answer(terminate_session_reply(session_id.as_str(), ended))
        },
        (ToolRequest::CreateCheckpoint { name, .. }, ToolState::Saving, ToolEvent::Saved(attempt)) => {
            let name: String = checkpoint_name(name, fresh.as_str());
            match &attempt {
                Attempt::Ran((size, None)) => ToolNext::Do(ToolState::Recording(*size), ToolWork::Record(name, *size)),
                _ => ToolNext::Answer(create_checkpoint_reply(fresh.as_str(), name.as_str(), &attempt, &Ok(()))),
            }
        },
        (ToolRequest::CreateCheckpoint { name, .. }, ToolState::Recording(size), ToolEvent::Recorded(saved)) => {
            let name: String = checkpoint_name(name, fresh.as_str());
            ToolNext::Answer(
                create_checkpoint_reply(fresh.as_str(), name.as_str(), &Attempt::Ran((size, None)), &saved),
            )
        },
        (ToolRequest::RestoreCheckpoint { checkpoint_id, .. }, ToolState::Finding, ToolEvent::Found(record)) => {
            match record {
                Some(c) => {
                    let path: String = c.path.clone();
                    ToolNext::Do(ToolState::Restoring(c), ToolWork::Restore(path))
                },
                None => ToolNext::Answer(
                    restore_checkpoint_reply(checkpoint_id.as_str(), None, &Attempt::NoSession),
                ),
            }
        },
        (ToolRequest::RestoreCheckpoint { checkpoint_id, .. }, ToolState::Restoring(c), ToolEvent::Restored(attempt)) => {
            ToolNext::Answer(restore_checkpoint_reply(checkpoint_id.as_str(), Some(&c), &attempt))
        },
        (ToolRequest::ListCheckpoints, ToolState::Listing, ToolEvent::Listed(list)) => {
            ToolNext::Answer(list_checkpoints_reply(&list))
        },
        (ToolRequest::DeleteCheckpoint { .. }, ToolState::Locating, ToolEvent::Found(record)) => {
            match record {
                Some(c) => ToolNext::Do(ToolState::Removing, ToolWork::Remove(c.path)),
                None => ToolNext::Do(ToolState::Deleting, ToolWork::Delete),
            }
        },
        (ToolRequest::DeleteCheckpoint { .. }, ToolState::Removing, ToolEvent::Removed) => {
            ToolNext::Do(ToolState::Deleting, ToolWork::Delete)
        },
        (ToolRequest::DeleteCheckpoint { checkpoint_id }, ToolState::Deleting, ToolEvent::Deleted(deleted)) => {
            ToolNext::Answer(delete_checkpoint_reply(checkpoint_id.as_str(), deleted))
        },
        (_, s, _) => ToolNext::Do(s, ToolWork::Wait),
    }
}

/// Whether a value is the result or the error of a tool.
pub open spec fn tool_content(v: JsonV) -> bool {
    ||| exists|text: Seq<char>| v == #[trigger] text_value(text)
    ||| exists|text: Seq<char>| v == #[trigger] tool_err_value(text)
}

/// Law: whatever is called, and whatever happens, a tool answers with one block
/// of text, marked as an error or not.
pub proof fn law_tools_answer_in_text(request: ToolRequest, fresh: String, s: ToolState, e: ToolEvent)
    ensures
        tool_step(request, fresh, s, e) matches ToolNextV::Answer(v) ==> tool_content(v),
{
}

/// Law: a job is started only once it is stored.
pub proof fn law_started_jobs_are_stored(request: ToolRequest, fresh: String, s: ToolState, e: ToolEvent)
    requires
        tool_step(request, fresh, s, e) matches ToolNextV::Do(_, ToolWorkV::StartJob),
    ensures
        e matches ToolEvent::JobStored(Ok(_)),
{
}

/// Law: a tool records a checkpoint only once it is saved without an error, in
/// the size that it was saved in.
pub proof fn law_recorded_checkpoints_are_saved(request: ToolRequest, fresh: String, s: ToolState, e: ToolEvent)
    requires
        tool_step(request, fresh, s, e) matches ToolNextV::Do(_, ToolWorkV::Record(_, _)),
    ensures
        tool_step(request, fresh, s, e) matches ToolNextV::Do(_, ToolWorkV::Record(_, size)) && e == ToolEvent::Saved(
            Attempt::Ran((size, None)),
        ),
{
}

} // verus!
