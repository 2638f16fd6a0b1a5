//! Laws on the course of a swarm and of the creation of a session.
use vstd::prelude::*;
use vstd::string::*;
use crate::api::stragglers::{late_ones, open_worker, step, Event, Progress};
use crate::api::swarm::{feed_text, last_name, worker_sent, worker_stored, ReducerV, WorkerEnd};
use crate::api::swarm_run::{
    all_done, cool_all, first_works, is_over, launch_start, launch_step, swarm_start, swarm_step, swarm_wf,
    template_step, worker_step, works_view, LaunchEvent, LaunchWork, Phase, SwarmEvent, SwarmState, SwarmV,
    SwarmWork, SwarmWorkV, TemplateEvent, TemplateRefusal, TemplateState, TemplateWork, WorkerEvent, WorkerState,
    WorkerWork,
};
use crate::creation::{creation_step, CreationEvent, CreationFailure, CreationState, CreationWork};
use crate::runtime::ExecutionResult;
use crate::sandbox::{Acquired, SessionInfo};
use crate::text::{lines, maybe_owned};

verus! {

/// Law: the template of a swarm runs its code in its session and saves the state; its
/// session is ended either way, and then the checkpoint is recorded with its size. Code
/// that failed, and a state that was not saved, is refused with its reason.
pub proof fn law_template_runs_saves_and_ends(
    id: String,
    x: ExecutionResult,
    size: u64,
    e: String,
    bad: ExecutionResult,
)
    requires
        x.error is None,
        bad.error == Some(e),
    ensures
        ({
            let (s0, w0) = template_step(TemplateState::Creating, TemplateEvent::Created(Some(id)));
            let (s1, w1) = template_step(s0, TemplateEvent::Ran(x));
            let (s2, w2) = template_step(s1, TemplateEvent::Saved(size, None));
            let (s3, w3) = template_step(s2, TemplateEvent::Ended);
            let (s4, w4) = template_step(s3, TemplateEvent::Stored(true));
            &&& w0 == TemplateWork::Execute(id)
            &&& w1 == TemplateWork::Save(id)
            &&& w2 == TemplateWork::EndSession(id)
            &&& w3 == TemplateWork::Store(size)
            &&& w4 == TemplateWork::Ready
        }),
        ({
            let (s0, w0) = template_step(TemplateState::Creating, TemplateEvent::Created(Some(id)));
            let (s1, w1) = template_step(s0, TemplateEvent::Ran(x));
            let (s2, w2) = template_step(s1, TemplateEvent::Saved(size, None));
            let (s3, w3) = template_step(s2, TemplateEvent::Ended);
            let (s4, w4) = template_step(s3, TemplateEvent::Stored(false));
            &&& w0 == TemplateWork::Execute(id)
            &&& w1 == TemplateWork::Save(id)
            &&& w2 == TemplateWork::EndSession(id)
            &&& w3 == TemplateWork::Store(size)
            &&& w4 == TemplateWork::Refuse(TemplateRefusal::Internal)
        }),
        ({
            let (s0, w0) = template_step(TemplateState::Creating, TemplateEvent::Created(Some(id)));
            let (s1, w1) = template_step(s0, TemplateEvent::Ran(x));
            let (s2, w2) = template_step(s1, TemplateEvent::Saved(size, Some(e)));
            let (s3, w3) = template_step(s2, TemplateEvent::Ended);
            &&& w0 == TemplateWork::Execute(id)
            &&& w1 == TemplateWork::Save(id)
            &&& w2 == TemplateWork::EndSession(id)
            &&& w3 == TemplateWork::Refuse(TemplateRefusal::SaveFailed(e))
        }),
        ({
            let (s0, w0) = template_step(TemplateState::Creating, TemplateEvent::Created(Some(id)));
            let (s1, w1) = template_step(s0, TemplateEvent::Ran(bad));
            let (s2, w2) = template_step(s1, TemplateEvent::Ended);
            &&& w0 == TemplateWork::Execute(id)
            &&& w1 == TemplateWork::EndSession(id)
            &&& w2 == TemplateWork::Refuse(TemplateRefusal::CodeFailed(e))
        }),
        ({
            let (s0, w0) = template_step(TemplateState::Creating, TemplateEvent::Created(Some(id)));
            let (s1, w1) = template_step(s0, TemplateEvent::Gone);
            &&& w0 == TemplateWork::Execute(id)
            &&& w1 == TemplateWork::Refuse(TemplateRefusal::Internal)
        }),
        ({
            let (s0, w0) = template_step(TemplateState::Creating, TemplateEvent::Created(None));
            &&& w0 == TemplateWork::Refuse(TemplateRefusal::Internal)
        }),
{
}

/// Law: a swarm without a template is recorded and started. One with a template warms
/// up a session for each of its workers beside the template; when the template is ready
/// it is recorded and started, and when it is refused, or is not recorded, every
/// session is cooled down and the refusal is answered.
pub proof fn law_swarm_is_launched(total: usize, why: TemplateRefusal, i: int)
    requires
        0 <= i < total,
    ensures
        launch_start(total, false).1 == seq![LaunchWork::Record],
        launch_step(total, launch_start(total, false).0, LaunchEvent::Recorded(true)).1 == seq![LaunchWork::Start],
        launch_step(total, launch_start(total, false).0, LaunchEvent::Recorded(false)).1 == seq![
            LaunchWork::Refuse(TemplateRefusal::Internal),
        ],
        launch_start(total, true).1.len() == total + 1
            && launch_start(total, true).1[i] == LaunchWork::Warm(i as usize)
            && launch_start(total, true).1.last() == LaunchWork::RunTemplate,
        launch_step(total, launch_start(total, true).0, LaunchEvent::TemplateReady).1 == seq![LaunchWork::Record],
        launch_step(total, launch_step(total, launch_start(total, true).0, LaunchEvent::TemplateReady).0, LaunchEvent::Recorded(true)).1
            == seq![LaunchWork::Start],
        ({
            let works = launch_step(total, launch_start(total, true).0, LaunchEvent::TemplateRefused(why)).1;
            works.len() == total + 1 && works[i] == LaunchWork::Cool(i as usize) && works.last() == LaunchWork::Refuse(why)
        }),
        ({
            let ready = launch_step(total, launch_start(total, true).0, LaunchEvent::TemplateReady).0;
            let works = launch_step(total, ready, LaunchEvent::Recorded(false)).1;
            works.len() == total + 1 && works[i] == LaunchWork::Cool(i as usize) && works.last() == LaunchWork::Refuse(TemplateRefusal::Internal)
        }),
{
    assert(cool_all(0).push(LaunchWork::Refuse(TemplateRefusal::Internal)) =~= seq![
        LaunchWork::Refuse(TemplateRefusal::Internal),
    ]);
}

/// Law: a worker starts from the template, where there is one, runs its code in its own
/// session, reports what came of it, and ends its session; one without a session, and
/// one whose session vanished, reports that.
pub proof fn law_worker_runs_and_reports(id: String, x: ExecutionResult, why: String, template: bool)
    ensures
        ({
            let (s0, w0) = worker_step(WorkerState::Creating, WorkerEvent::Created(Ok(id)), false);
            let (s1, w1) = worker_step(s0, WorkerEvent::Found(true), false);
            let (s2, w2) = worker_step(s1, WorkerEvent::Ran(x), false);
            let (s3, w3) = worker_step(s2, WorkerEvent::Reported, false);
            let (s4, w4) = worker_step(s3, WorkerEvent::Ended, false);
            &&& w0 == WorkerWork::Look(id)
            &&& w1 == WorkerWork::Execute(id)
            &&& w2 == WorkerWork::Report(WorkerEnd::Ran(x))
            &&& w3 == WorkerWork::EndSession(id)
            &&& w4 == WorkerWork::Stop
        }),
        ({
            let (s0, w0) = worker_step(WorkerState::Creating, WorkerEvent::Created(Ok(id)), true);
            let (s1, w1) = worker_step(s0, WorkerEvent::Found(true), true);
            let (s2, w2) = worker_step(s1, WorkerEvent::Restored, true);
            let (s3, w3) = worker_step(s2, WorkerEvent::Ran(x), true);
            let (s4, w4) = worker_step(s3, WorkerEvent::Reported, true);
            let (s5, w5) = worker_step(s4, WorkerEvent::Ended, true);
            &&& w0 == WorkerWork::Look(id)
            &&& w1 == WorkerWork::Restore(id)
            &&& w2 == WorkerWork::Execute(id)
            &&& w3 == WorkerWork::Report(WorkerEnd::Ran(x))
            &&& w4 == WorkerWork::EndSession(id)
            &&& w5 == WorkerWork::Stop
        }),
        ({
            let (s0, w0) = worker_step(WorkerState::Creating, WorkerEvent::Created(Ok(id)), template);
            let (s1, w1) = worker_step(s0, WorkerEvent::Found(false), template);
            let (s2, w2) = worker_step(s1, WorkerEvent::Reported, template);
            &&& w0 == WorkerWork::Look(id)
            &&& w1 == WorkerWork::Report(WorkerEnd::Vanished)
            &&& w2 == WorkerWork::Stop
        }),
        ({
            let (s0, w0) = worker_step(WorkerState::Creating, WorkerEvent::Created(Err(why)), template);
            let (s1, w1) = worker_step(s0, WorkerEvent::Reported, template);
            &&& w0 == WorkerWork::Report(WorkerEnd::NoSession(why))
            &&& w1 == WorkerWork::Stop
        }),
{
}

/// Law: a swarm starts each of its workers once, in order, and opens its reducer where
/// it has one; nothing has come in yet.
pub proof fn law_swarm_starts_all_its_workers(total: nat, f: Seq<char>, now: u64, i: int)
    requires
        0 <= i < total,
    ensures
        first_works(total, None).len() == total && first_works(total, None)[i] == SwarmWorkV::StartWorker(i),
        first_works(total, Some(f)).len() == total + 1
            && first_works(total, Some(f))[i] == SwarmWorkV::StartWorker(i)
            && first_works(total, Some(f)).last() == SwarmWorkV::OpenReducer,
        swarm_start(total, Some(f), now).outcome == (
            ReducerV { reduce_fn: f, stdout: None, result: None, error: None }
        ),
        swarm_start(total, Some(f), now).phase == Phase::Opening
            && swarm_start(total, None, now).phase == Phase::Plain,
        swarm_start(total, None, now).results.len() == 0
            && swarm_start(total, Some(f), now).results.len() == 0
            && swarm_start(total, Some(f), now).fed == 0
            && swarm_start(total, None, now).fed == 0,
        swarm_start(total, None, now).workers.len() == total
            && swarm_start(total, None, now).workers[i] == Progress::Running(now)
            && swarm_start(total, Some(f), now).workers == swarm_start(total, None, now).workers,
{
}

/// Law: the first end of a worker is stored at its place as it ended, and what it sent
/// is kept for the reducer behind what came before, with its index.
pub proof fn law_worker_s_end_is_stored_and_kept(
    v: SwarmV,
    index: usize,
    x: ExecutionResult,
    ms: i64,
    stored: u64,
    now: u64,
    why: String,
)
    requires
        0 <= index < v.workers.len(),
        !(v.workers[index as int] is Finished),
    ensures
        ({
            let (next, works) = swarm_step(
                v,
                (
                    SwarmEvent::WorkerEnded {
                        index: index,
                        end: WorkerEnd::Ran(x),
                        elapsed_ms: ms,
                        stored_index: stored,
                        now: now,
                    }
                ),
            );
            &&& works.len() > 0
            &&& works[0] == SwarmWorkV::Store(index as int, worker_stored(WorkerEnd::Ran(x), ms))
            &&& worker_sent(WorkerEnd::Ran(x), stored) is Some
            &&& next.results == v.results.push(worker_sent(WorkerEnd::Ran(x), stored)->Some_0)
        }),
        !(v.workers[index as int] is Backed) ==> ({
            let (next, works) = swarm_step(
                v,
                (
                    SwarmEvent::WorkerEnded {
                        index: index,
                        end: WorkerEnd::NoSession(why),
                        elapsed_ms: ms,
                        stored_index: stored,
                        now: now,
                    }
                ),
            );
            &&& works.len() > 0
            &&& works[0] == SwarmWorkV::Store(index as int, worker_stored(WorkerEnd::NoSession(why), ms))
            &&& next.results == v.results.push(worker_sent(WorkerEnd::NoSession(why), stored)->Some_0)
        }),
        !(v.workers[index as int] is Backed) ==> ({
            let (next, works) = swarm_step(
                v,
                (
                    SwarmEvent::WorkerEnded {
                        index: index,
                        end: WorkerEnd::Vanished,
                        elapsed_ms: ms,
                        stored_index: stored,
                        now: now,
                    }
                ),
            );
            &&& works.len() > 0
            &&& works[0] == SwarmWorkV::Store(index as int, worker_stored(WorkerEnd::Vanished, ms))
            &&& next.results == v.results
        }),
{
}

/// Law: a worker that ended already is not stored again, and what it sends is not kept.
pub proof fn law_later_ends_change_nothing(
    v: SwarmV,
    index: usize,
    end: WorkerEnd,
    ms: i64,
    stored: u64,
    now: u64,
)
    requires
        0 <= index < v.workers.len(),
        v.workers[index as int] is Finished,
    ensures
        ({
            let (next, works) = swarm_step(
                v,
                (
                    SwarmEvent::WorkerEnded {
                        index: index,
                        end: end,
                        elapsed_ms: ms,
                        stored_index: stored,
                        now: now,
                    }
                ),
            );
            works.len() == 0 && next.results == v.results && next.outcome == v.outcome && next.fed == v.fed && next.phase == v.phase
        }),
{
}

/// Law: a reducer that opened, or has reduced, is fed the next result that waits; when
/// none waits and all workers ended, it is asked for the value that its code assigned
/// last, where it captured none, and is then closed, and the swarm is finished.
pub proof fn law_reducer_is_fed_in_order(v: SwarmV, x: ExecutionResult)
    requires
        0 <= v.fed <= v.results.len(),
    ensures
        v.phase == Phase::Opening && v.fed < v.results.len()
            ==> swarm_step(v, SwarmEvent::ReducerOpened).1 == seq![
                SwarmWorkV::Reduce(feed_text(v.results[v.fed], v.outcome.reduce_fn)),
            ]
                && swarm_step(v, SwarmEvent::ReducerOpened).0.fed == v.fed + 1
                && swarm_step(v, SwarmEvent::ReducerOpened).0.phase == Phase::Feeding,
        v.phase == Phase::Feeding && v.fed < v.results.len()
            ==> swarm_step(v, SwarmEvent::ReducerRan(x)).1 == seq![
                SwarmWorkV::Reduce(feed_text(v.results[v.fed], v.outcome.reduce_fn)),
            ]
                && swarm_step(v, SwarmEvent::ReducerRan(x)).0.fed == v.fed + 1,
        v.phase == Phase::Feeding
            ==> swarm_step(v, SwarmEvent::ReducerRan(x)).0.outcome == (
                ReducerV {
                    reduce_fn: v.outcome.reduce_fn,
                    stdout: Some(x.stdout@),
                    result: maybe_owned(x.result),
                    error: maybe_owned(x.error),
                }
            ),
        v.phase == Phase::Feeding && v.fed == v.results.len() && all_done(v.workers) && x.result is Some
            ==> swarm_step(v, SwarmEvent::ReducerRan(x)).1 == seq![SwarmWorkV::CloseReducer, SwarmWorkV::Finish]
                && swarm_step(v, SwarmEvent::ReducerRan(x)).0.phase == Phase::Over,
        v.phase == Phase::Feeding && v.fed == v.results.len() && all_done(v.workers) && x.result is None
            ==> (
                last_name(lines(v.outcome.reduce_fn)) matches Some(name)
                    ==> swarm_step(v, SwarmEvent::ReducerRan(x)).1 == seq![SwarmWorkV::Reduce(name)]
                        && swarm_step(v, SwarmEvent::ReducerRan(x)).0.phase == Phase::Asking
            ),
        v.phase == Phase::Feeding && v.fed == v.results.len() && !all_done(v.workers)
            ==> swarm_step(v, SwarmEvent::ReducerRan(x)).1.len() == 0,
        v.phase == Phase::Asking
            ==> swarm_step(v, SwarmEvent::ReducerRan(x)).1 == seq![SwarmWorkV::CloseReducer, SwarmWorkV::Finish]
                && swarm_step(v, SwarmEvent::ReducerRan(x)).0.phase == Phase::Over
                && swarm_step(v, SwarmEvent::ReducerRan(x)).0.outcome.stdout == v.outcome.stdout
                && (
                    x.result matches Some(r)
                        ==> swarm_step(v, SwarmEvent::ReducerRan(x)).0.outcome.result == Some(r@)
                ),
        swarm_step(v, SwarmEvent::ReducerRan(x)).0.results == v.results
            && swarm_step(v, SwarmEvent::ReducerRan(x)).0.workers == v.workers,
{
    assert(seq![SwarmWorkV::CloseReducer].push(SwarmWorkV::Finish) =~= seq![
        SwarmWorkV::CloseReducer,
        SwarmWorkV::Finish,
    ]);
}

/// Law: a reducer that waits is fed what a worker found as soon as it ends; one that is
/// busy, or not open yet, is not.
pub proof fn law_idle_reducer_is_fed_at_once(
    v: SwarmV,
    index: usize,
    x: ExecutionResult,
    ms: i64,
    stored: u64,
    now: u64,
)
    requires
        0 <= index < v.workers.len(),
        !(v.workers[index as int] is Finished),
        0 <= v.fed <= v.results.len(),
    ensures
        v.phase == Phase::Idle && v.fed == v.results.len() ==> ({
            let (next, works) = swarm_step(
                v,
                (
                    SwarmEvent::WorkerEnded {
                        index: index,
                        end: WorkerEnd::Ran(x),
                        elapsed_ms: ms,
                        stored_index: stored,
                        now: now,
                    }
                ),
            );
            &&& works == seq![
                SwarmWorkV::Store(index as int, worker_stored(WorkerEnd::Ran(x), ms)),
                SwarmWorkV::Reduce(feed_text(worker_sent(WorkerEnd::Ran(x), stored)->Some_0, v.outcome.reduce_fn)),
            ]
            &&& next.fed == v.fed + 1 && next.phase == Phase::Feeding && next.outcome == v.outcome
        }),
        v.phase == Phase::Opening || v.phase == Phase::Feeding || v.phase == Phase::Asking || v.phase == Phase::Over || v.phase == Phase::Broken ==> ({
            let (next, works) = swarm_step(
                v,
                (
                    SwarmEvent::WorkerEnded {
                        index: index,
                        end: WorkerEnd::Ran(x),
                        elapsed_ms: ms,
                        stored_index: stored,
                        now: now,
                    }
                ),
            );
            &&& works == seq![SwarmWorkV::Store(index as int, worker_stored(WorkerEnd::Ran(x), ms))]
            &&& next.fed == v.fed && next.phase == v.phase && next.outcome == v.outcome
        }),
{
    let store = SwarmWorkV::Store(index as int, worker_stored(WorkerEnd::Ran(x), ms));
    assert(seq![store] + Seq::<SwarmWorkV>::empty() =~= seq![store]);
    let feed = SwarmWorkV::Reduce(feed_text(worker_sent(WorkerEnd::Ran(x), stored)->Some_0, v.outcome.reduce_fn));
    assert(seq![store] + seq![feed] =~= seq![store, feed]);
}

/// Law: a reducer that reports when it was not asked, or opens twice, changes nothing;
/// a look at the clock starts a backup for each worker that is late, and changes
/// nothing but the workers.
pub proof fn law_reducer_is_heard_when_it_is_asked(v: SwarmV, x: ExecutionResult, now: u64)
    ensures
        v.phase == Phase::Plain
            || v.phase == Phase::Opening
            || v.phase == Phase::Idle
            || v.phase == Phase::Over
            || v.phase == Phase::Broken
            ==> swarm_step(v, SwarmEvent::ReducerRan(x)) == (v, Seq::<SwarmWorkV>::empty()),
        v.phase != Phase::Opening ==> swarm_step(v, SwarmEvent::ReducerOpened) == (v, Seq::<SwarmWorkV>::empty()),
        v.phase == Phase::Opening && v.fed == v.results.len() && !all_done(v.workers)
            ==> swarm_step(v, SwarmEvent::ReducerOpened).1.len() == 0
                && swarm_step(v, SwarmEvent::ReducerOpened).0 == (SwarmV { phase: Phase::Idle, ..v }),
        swarm_step(v, SwarmEvent::Tick(now)).0 == (SwarmV { workers: step(v.workers, Event::Look(now)), ..v }),
        swarm_step(v, SwarmEvent::Tick(now)).1.len() == late_ones(v.workers, now, v.workers.len()).len(),
        forall|i: int|
            0 <= i < late_ones(v.workers, now, v.workers.len()).len()
                ==> #[trigger] swarm_step(v, SwarmEvent::Tick(now)).1[i] == SwarmWorkV::StartWorker(
                    late_ones(v.workers, now, v.workers.len())[i],
                ),
{
}

/// Law: of the results no more were fed than came in.
pub proof fn law_fed_are_no_more_than_came_in(v: SwarmV)
    ensures
        swarm_wf(v) <==> 0 <= v.fed <= v.results.len(),
{
}

/// Law: a swarm whose reducer could not be opened, or is gone, is finished with the
/// reason as its only outcome.
pub proof fn law_lost_reducer_ends_the_swarm(v: SwarmV, why: String)
    ensures
        v.phase == Phase::Opening ==> ({
            let (next, works) = swarm_step(v, SwarmEvent::ReducerFailed(why));
            &&& works == seq![SwarmWorkV::Finish]
            &&& next.outcome.error == Some("Reducer session failed: "@ + why@)
            &&& next.outcome.result is None && next.outcome.stdout is None
        }),
        v.phase == Phase::Opening || v.phase == Phase::Feeding || v.phase == Phase::Asking ==> ({
            let (next, works) = swarm_step(v, SwarmEvent::ReducerGone);
            &&& works == seq![SwarmWorkV::Finish]
            &&& next.outcome.error == Some("Reducer session disappeared"@)
            &&& next.outcome.result is None && next.outcome.stdout is None
        }),
        v.phase == Phase::Plain || v.phase == Phase::Over || v.phase == Phase::Broken
            ==> swarm_step(v, SwarmEvent::ReducerGone) == (v, Seq::<SwarmWorkV>::empty())
                && swarm_step(v, SwarmEvent::ReducerFailed(why)) == (v, Seq::<SwarmWorkV>::empty()),
{
}

/// Law: a swarm without a reducer is finished when the last of its workers ends, and
/// not before.
pub proof fn law_plain_swarm_finishes_with_its_workers(
    v: SwarmV,
    index: usize,
    x: ExecutionResult,
    ms: i64,
    stored: u64,
    now: u64,
)
    requires
        v.phase == Phase::Plain,
        0 <= index < v.workers.len(),
        !(v.workers[index as int] is Finished),
        forall|i: int| 0 <= i < v.workers.len() && i != index ==> #[trigger] v.workers[i] is Finished,
    ensures
        swarm_step(v, (SwarmEvent::WorkerEnded { index: index, end: WorkerEnd::Ran(x), elapsed_ms: ms, stored_index: stored, now: now })).1
            == seq![SwarmWorkV::Store(index as int, worker_stored(WorkerEnd::Ran(x), ms)), SwarmWorkV::Finish],
        swarm_step(v, (SwarmEvent::WorkerEnded { index: index, end: WorkerEnd::Ran(x), elapsed_ms: ms, stored_index: stored, now: now })).0.phase
            == Phase::Over,
{
    let after = step(v.workers, Event::Finish(index as int, now));
    assert(all_done(after)) by {
        assert forall|i: int| !open_worker(after, i) by {}
    }
    let works = seq![SwarmWorkV::Store(index as int, worker_stored(WorkerEnd::Ran(x), ms))]
        + seq![SwarmWorkV::Finish];
    assert(works =~= seq![
        SwarmWorkV::Store(index as int, worker_stored(WorkerEnd::Ran(x), ms)),
        SwarmWorkV::Finish,
    ]);
}

/// Law: the works and the state of a swarm are known by what they carry.
pub proof fn law_swarm_works_keep_what_they_carry(w: SwarmWork, s: SwarmState, v: Seq<SwarmWork>)
    ensures
        w matches SwarmWork::StartWorker(i) ==> w@ == SwarmWorkV::StartWorker(i as int),
        w is OpenReducer ==> w@ is OpenReducer,
        w matches SwarmWork::Store(i, d) ==> w@ == SwarmWorkV::Store(i as int, d@),
        w matches SwarmWork::Reduce(c) ==> w@ == SwarmWorkV::Reduce(c@),
        w is CloseReducer ==> w@ is CloseReducer,
        w is Finish ==> w@ is Finish,
        s@.fed == s.fed,
        s@.outcome == s.outcome@,
        s@.phase == s.phase,
        s@.results.len() == s.results@.len(),
        forall|i: int| 0 <= i < s.results@.len() ==> #[trigger] s@.results[i] == s.results@[i]@,
        works_view(v).len() == v.len(),
        forall|i: int| 0 <= i < v.len() ==> #[trigger] works_view(v)[i] == v[i]@,
{
}

/// Law: a session gets its workspace and then a worker: a warm one is cleared, and its
/// pool is refilled where it was one of a template; a new one gets the packages of its
/// template, where there are any. With that worker it is filed, and handed over. What
/// fails is told.
pub proof fn law_session_gets_its_worker(w: u64, code: String, info: SessionInfo, why: String, template: bool)
    ensures
        ({
            let (s0, w0) = creation_step(false, CreationState::MakingWorkspace, CreationEvent::WorkspaceMade);
            let (s1, w1) = creation_step(false, s0, CreationEvent::Acquired(Acquired::Warm(w)));
            let (s2, w2) = creation_step(false, s1, CreationEvent::Cleared);
            let (s3, w3) = creation_step(false, s2, CreationEvent::Filed(info));
            &&& w0 == CreationWork::Acquire
            &&& w1 == CreationWork::Clear(w)
            &&& w2 == CreationWork::File(w)
            &&& w3 == CreationWork::Done(info)
        }),
        ({
            let (s0, w0) = creation_step(true, CreationState::MakingWorkspace, CreationEvent::WorkspaceMade);
            let (s1, w1) = creation_step(true, s0, CreationEvent::Acquired(Acquired::Warm(w)));
            let (s2, w2) = creation_step(true, s1, CreationEvent::Cleared);
            let (s3, w3) = creation_step(true, s2, CreationEvent::Refilled);
            let (s4, w4) = creation_step(true, s3, CreationEvent::Filed(info));
            &&& w0 == CreationWork::Acquire
            &&& w1 == CreationWork::Clear(w)
            &&& w2 == CreationWork::Refill
            &&& w3 == CreationWork::File(w)
            &&& w4 == CreationWork::Done(info)
        }),
        ({
            let (s0, w0) = creation_step(template, CreationState::MakingWorkspace, CreationEvent::WorkspaceMade);
            let (s1, w1) = creation_step(template, s0, CreationEvent::Acquired(Acquired::Cold(Some(code))));
            let (s2, w2) = creation_step(template, s1, CreationEvent::Spawned(w));
            let (s3, w3) = creation_step(template, s2, CreationEvent::Installed);
            let (s4, w4) = creation_step(template, s3, CreationEvent::Filed(info));
            &&& w0 == CreationWork::Acquire
            &&& w1 == CreationWork::Spawn
            &&& w2 == CreationWork::Install(w, code)
            &&& w3 == CreationWork::File(w)
            &&& w4 == CreationWork::Done(info)
        }),
        ({
            let (s0, w0) = creation_step(template, CreationState::MakingWorkspace, CreationEvent::WorkspaceMade);
            let (s1, w1) = creation_step(template, s0, CreationEvent::Acquired(Acquired::Cold(None)));
            let (s2, w2) = creation_step(template, s1, CreationEvent::Spawned(w));
            let (s3, w3) = creation_step(template, s2, CreationEvent::Filed(info));
            &&& w0 == CreationWork::Acquire
            &&& w1 == CreationWork::Spawn
            &&& w2 == CreationWork::File(w)
            &&& w3 == CreationWork::Done(info)
        }),
        ({
            let (s0, w0) = creation_step(template, CreationState::MakingWorkspace, CreationEvent::WorkspaceMade);
            let (s1, w1) = creation_step(template, s0, CreationEvent::Acquired(Acquired::Cold(None)));
            let (s2, w2) = creation_step(template, s1, CreationEvent::SpawnFailed(why));
            &&& w0 == CreationWork::Acquire
            &&& w1 == CreationWork::Spawn
            &&& w2 == CreationWork::Fail(CreationFailure::NoWorker(why))
        }),
        ({
            let (s0, w0) = creation_step(
                template,
                CreationState::MakingWorkspace,
                CreationEvent::WorkspaceFailed(why),
            );
            &&& w0 == CreationWork::Fail(CreationFailure::NoWorkspace(why))
        }),
{
}

/// Law: a swarm is over when it was finished or lost its reducer.
pub proof fn law_swarm_is_over_when_it_ended(v: SwarmV)
    ensures
        is_over(v) <==> v.phase == Phase::Over || v.phase == Phase::Broken,
        all_done(v.workers) <==> forall|i: int| 0 <= i < v.workers.len() ==> #[trigger] v.workers[i] is Finished,
{
    if all_done(v.workers) {
        assert forall|i: int| 0 <= i < v.workers.len() implies #[trigger] v.workers[i] is Finished by {
            assert(!open_worker(v.workers, i));
        }
    }
}

} // verus!
