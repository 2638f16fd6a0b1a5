//! Laws on events that are not waited for: they change nothing.
use vstd::prelude::*;
use crate::api::checkout::{checkout_step, CheckoutEvent, CheckoutPlan, CheckoutState, CheckoutWorkV};
use crate::api::login::{login_step, LoginEvent, LoginPlan, LoginStateV, LoginWorkV};
use crate::api::session_run::{
    checkpoint_step, job_step, setup_step, CheckpointEvent, CheckpointState, CheckpointWork, JobEvent, JobPlan,
    JobStateV, JobWorkV, SetupEvent, SetupNext, SetupState, SetupWork,
};
use crate::api::swarm_run::{
    launch_step, template_step, worker_step, LaunchEvent, LaunchState, LaunchWork, TemplateEvent, TemplateState,
    TemplateWork, WorkerEvent, WorkerState, WorkerWork,
};
use crate::api::workspace_run::{
    delete_step, run_step, DeleteEvent, DeleteState, DeleteWorkV, RunEvent, RunPlan, RunState, RunWorkV,
};
use crate::creation::{creation_step, CreationEvent, CreationState, CreationWork};
use crate::http::NextV;

verus! {

/// Law: an event on the run of code in a workspace that its state does not wait for
/// changes nothing, and nothing is done.
pub proof fn law_run_waits(plan: RunPlan, s: RunState, e: RunEvent)
    ensures
        s is Checking && !(e is Accessible)
            ==> run_step(plan, s, e) == NextV::<RunState, RunWorkV>::Do(s, RunWorkV::Wait),
        s is Loading && !(e is Loaded) ==> run_step(plan, s, e) == NextV::<RunState, RunWorkV>::Do(s, RunWorkV::Wait),
        s is Looking && !(e is Live) ==> run_step(plan, s, e) == NextV::<RunState, RunWorkV>::Do(s, RunWorkV::Wait),
        s is MakingDir && !(e is DirMade)
            ==> run_step(plan, s, e) == NextV::<RunState, RunWorkV>::Do(s, RunWorkV::Wait),
        s is Spawning && !(e is Spawned)
            ==> run_step(plan, s, e) == NextV::<RunState, RunWorkV>::Do(s, RunWorkV::Wait),
        s is Probing && !(e is Exists) ==> run_step(plan, s, e) == NextV::<RunState, RunWorkV>::Do(s, RunWorkV::Wait),
        s is Restoring && !(e is Restored)
            ==> run_step(plan, s, e) == NextV::<RunState, RunWorkV>::Do(s, RunWorkV::Wait),
        s is Filing && !(e is Filed) ==> run_step(plan, s, e) == NextV::<RunState, RunWorkV>::Do(s, RunWorkV::Wait),
        s is Executing && !(e is Ran) ==> run_step(plan, s, e) == NextV::<RunState, RunWorkV>::Do(s, RunWorkV::Wait),
        s is Saving && !(e is Saved) ==> run_step(plan, s, e) == NextV::<RunState, RunWorkV>::Do(s, RunWorkV::Wait),
        s is Noting && !(e is Noted) ==> run_step(plan, s, e) == NextV::<RunState, RunWorkV>::Do(s, RunWorkV::Wait),
{
}

/// Law: an event on the deletion of a workspace that its state does not wait for
/// changes nothing, and nothing is done.
pub proof fn law_deletion_waits(dir: Seq<char>, id: Seq<char>, s: DeleteState, e: DeleteEvent)
    ensures
        s is Checking && !(e is Owner)
            ==> delete_step(dir, id, s, e) == NextV::<DeleteState, DeleteWorkV>::Do(s, DeleteWorkV::Wait),
        s is Ending && !(e is Ended)
            ==> delete_step(dir, id, s, e) == NextV::<DeleteState, DeleteWorkV>::Do(s, DeleteWorkV::Wait),
        s is Wiping && !(e is Wiped)
            ==> delete_step(dir, id, s, e) == NextV::<DeleteState, DeleteWorkV>::Do(s, DeleteWorkV::Wait),
        s is Loading && !(e is Loaded)
            ==> delete_step(dir, id, s, e) == NextV::<DeleteState, DeleteWorkV>::Do(s, DeleteWorkV::Wait),
        s is Removing && !(e is Removed)
            ==> delete_step(dir, id, s, e) == NextV::<DeleteState, DeleteWorkV>::Do(s, DeleteWorkV::Wait),
        s is Deleting && !(e is Deleted)
            ==> delete_step(dir, id, s, e) == NextV::<DeleteState, DeleteWorkV>::Do(s, DeleteWorkV::Wait),
{
}

/// Law: an event on a checkout that its state does not wait for changes nothing, and
/// nothing is done.
pub proof fn law_checkout_waits(plan: CheckoutPlan, s: CheckoutState, e: CheckoutEvent)
    ensures
        s is Finding && !(e is Found)
            ==> checkout_step(plan, s, e) == NextV::<CheckoutState, CheckoutWorkV>::Do(s, CheckoutWorkV::Wait),
        s is Identifying && !(e is Identified)
            ==> checkout_step(plan, s, e) == NextV::<CheckoutState, CheckoutWorkV>::Do(s, CheckoutWorkV::Wait),
        s is Creating && !(e is Replied)
            ==> checkout_step(plan, s, e) == NextV::<CheckoutState, CheckoutWorkV>::Do(s, CheckoutWorkV::Wait),
        s is Opening && !(e is Replied)
            ==> checkout_step(plan, s, e) == NextV::<CheckoutState, CheckoutWorkV>::Do(s, CheckoutWorkV::Wait),
{
}

/// Law: an event on a login that its state does not wait for changes nothing, and
/// nothing is done.
pub proof fn law_login_waits(plan: LoginPlan, s: LoginStateV, e: LoginEvent)
    ensures
        s is Exchanging && !(e is Exchanged)
            ==> login_step(plan, s, e) == NextV::<LoginStateV, LoginWorkV>::Do(s, LoginWorkV::Wait),
        s is Asking && !(e is Told)
            ==> login_step(plan, s, e) == NextV::<LoginStateV, LoginWorkV>::Do(s, LoginWorkV::Wait),
        s is Finding && !(e is Found)
            ==> login_step(plan, s, e) == NextV::<LoginStateV, LoginWorkV>::Do(s, LoginWorkV::Wait),
        s is Creating && !(e is Created)
            ==> login_step(plan, s, e) == NextV::<LoginStateV, LoginWorkV>::Do(s, LoginWorkV::Wait),
{
}

/// Law: an event on the setup of a session that its state does not wait for changes
/// nothing, and nothing is done.
pub proof fn law_setup_waits(
    packages: Option<Vec<String>>,
    id: Option<String>,
    keyed: bool,
    s: SetupState,
    e: SetupEvent,
)
    ensures
        s is Creating && !(e is Created)
            ==> setup_step(packages, id, keyed, s, e) == SetupNext::Do(s, SetupWork::Wait),
        s is Installing && !(e is Installed)
            ==> setup_step(packages, id, keyed, s, e) == SetupNext::Do(s, SetupWork::Wait),
        s is Finding && !(e is Found) ==> setup_step(packages, id, keyed, s, e) == SetupNext::Do(s, SetupWork::Wait),
        s is Restoring && !(e is Restored)
            ==> setup_step(packages, id, keyed, s, e) == SetupNext::Do(s, SetupWork::Wait),
{
}

/// Law: an event on a job that its state does not wait for changes nothing, and nothing
/// is done.
pub proof fn law_job_waits(plan: JobPlan, s: JobStateV, e: JobEvent)
    ensures
        s is Over ==> job_step(plan, s, e) == (s, JobWorkV::Wait),
        s is Marking && !(e is Marked) ==> job_step(plan, s, e) == (s, JobWorkV::Wait),
        s is Executing && !(e is Ran) ==> job_step(plan, s, e) == (s, JobWorkV::Wait),
        s is Finishing && !(e is Stored) ==> job_step(plan, s, e) == (s, JobWorkV::Wait),
        s is Posting && !(e is Posted) ==> job_step(plan, s, e) == (s, JobWorkV::Wait),
{
}

/// Law: an event on a checkpoint that its state does not wait for changes nothing, and
/// nothing is done.
pub proof fn law_checkpoint_waits(id: Seq<char>, name: Seq<char>, s: CheckpointState, e: CheckpointEvent)
    ensures
        s is Finding && !(e is Found)
            ==> checkpoint_step(id, name, s, e) == NextV::<CheckpointState, CheckpointWork>::Do(
                s,
                CheckpointWork::Wait,
            ),
        s is Identifying && !(e is Identified)
            ==> checkpoint_step(id, name, s, e) == NextV::<CheckpointState, CheckpointWork>::Do(
                s,
                CheckpointWork::Wait,
            ),
        s is Measuring && !(e is Measured)
            ==> checkpoint_step(id, name, s, e) == NextV::<CheckpointState, CheckpointWork>::Do(
                s,
                CheckpointWork::Wait,
            ),
        s is Saving && !(e is Saved)
            ==> checkpoint_step(id, name, s, e) == NextV::<CheckpointState, CheckpointWork>::Do(
                s,
                CheckpointWork::Wait,
            ),
        s is Storing && !(e is Stored)
            ==> checkpoint_step(id, name, s, e) == NextV::<CheckpointState, CheckpointWork>::Do(
                s,
                CheckpointWork::Wait,
            ),
{
}

/// Law: an event on the template of a swarm that its state does not wait for changes
/// nothing, and nothing is done.
pub proof fn law_template_waits(s: TemplateState, e: TemplateEvent)
    ensures
        s is Over ==> template_step(s, e) == (s, TemplateWork::Wait),
        s is Creating && !(e is Created) ==> template_step(s, e) == (s, TemplateWork::Wait),
        s is Running && !(e is Ran) && !(e is Gone) ==> template_step(s, e) == (s, TemplateWork::Wait),
        s is Saving && !(e is Saved) ==> template_step(s, e) == (s, TemplateWork::Wait),
        s is Ending && !(e is Ended) ==> template_step(s, e) == (s, TemplateWork::Wait),
        s is Storing && !(e is Stored) ==> template_step(s, e) == (s, TemplateWork::Wait),
{
}

/// Law: an event on the launch of a swarm that its state does not wait for changes
/// nothing, and nothing is done.
pub proof fn law_launch_waits(total: usize, s: LaunchState, e: LaunchEvent)
    ensures
        s is Over ==> launch_step(total, s, e) == (s, Seq::<LaunchWork>::empty()),
        s is Templating && !(e is TemplateReady) && !(e is TemplateRefused)
            ==> launch_step(total, s, e) == (s, Seq::<LaunchWork>::empty()),
        s is Recording && !(e is Recorded) ==> launch_step(total, s, e) == (s, Seq::<LaunchWork>::empty()),
{
}

/// Law: an event on a worker of a swarm that its state does not wait for changes
/// nothing, and nothing is done.
pub proof fn law_worker_waits(s: WorkerState, e: WorkerEvent, template: bool)
    ensures
        s is Over ==> worker_step(s, e, template) == (s, WorkerWork::Wait),
        s is Creating && !(e is Created) ==> worker_step(s, e, template) == (s, WorkerWork::Wait),
        s is Looking && !(e is Found) ==> worker_step(s, e, template) == (s, WorkerWork::Wait),
        s is Restoring && !(e is Restored) ==> worker_step(s, e, template) == (s, WorkerWork::Wait),
        s is Running && !(e is Ran) ==> worker_step(s, e, template) == (s, WorkerWork::Wait),
        s is Reporting && !(e is Reported) ==> worker_step(s, e, template) == (s, WorkerWork::Wait),
        s is Ending && !(e is Ended) ==> worker_step(s, e, template) == (s, WorkerWork::Wait),
{
}

/// Law: an event on the creation of a session that its state does not wait for changes
/// nothing, and nothing is done.
pub proof fn law_creation_waits(template: bool, s: CreationState, e: CreationEvent)
    ensures
        s is Over ==> creation_step(template, s, e) == (s, CreationWork::Wait),
        s is MakingWorkspace && !(e is WorkspaceMade) && !(e is WorkspaceFailed)
            ==> creation_step(template, s, e) == (s, CreationWork::Wait),
        s is Acquiring && !(e is Acquired) ==> creation_step(template, s, e) == (s, CreationWork::Wait),
        s is Clearing && !(e is Cleared) ==> creation_step(template, s, e) == (s, CreationWork::Wait),
        s is Refilling && !(e is Refilled) ==> creation_step(template, s, e) == (s, CreationWork::Wait),
        s is Spawning && !(e is Spawned) && !(e is SpawnFailed)
            ==> creation_step(template, s, e) == (s, CreationWork::Wait),
        s is Installing && !(e is Installed) ==> creation_step(template, s, e) == (s, CreationWork::Wait),
        s is Filing && !(e is Filed) ==> creation_step(template, s, e) == (s, CreationWork::Wait),
{
}

} // verus!
