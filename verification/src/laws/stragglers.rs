//! Laws on slow workers: who is late, and whose end counts.
use vstd::prelude::*;
use crate::api::stragglers::{late, late_ones, step, times, twice_median, Event, Progress};

verus! {

/// Law: the times of the workers that finished are told in order, and no other.
pub proof fn law_finished_times_are_told(ws: Seq<Progress>, t: u64, p: Progress)
    ensures
        times(Seq::empty()).len() == 0,
        times(ws.push(Progress::Finished(t))) == times(ws).push(t as int),
        !(p is Finished) ==> times(ws.push(p)) == times(ws),
{
    assert(ws.push(Progress::Finished(t)).drop_last() =~= ws);
    assert(ws.push(p).drop_last() =~= ws);
}

/// Law: twice the median of times in order is twice the one in the middle, or
/// the sum of the two in the middle, and it is the same in any other order.
pub proof fn law_median_is_in_the_middle(ordered: Seq<int>, s: Seq<int>)
    requires
        forall|i: int, j: int| 0 <= i < j < ordered.len() ==> ordered[i] <= ordered[j],
        s.to_multiset() == ordered.to_multiset(),
    ensures
        ordered.len() % 2 == 1 ==> twice_median(s) == 2 * ordered[ordered.len() as int / 2],
        ordered.len() % 2 == 0 ==> twice_median(s) == ordered[ordered.len() as int / 2 - 1] + ordered[ordered.len() as int
            / 2],
{
    let leq = |x: int, y: int| x <= y;
    s.lemma_sort_ensures();
    assert(vstd::relations::sorted_by(ordered, leq));
    assert(vstd::relations::sorted_by(s.sort(), leq));
    vstd::seq_lib::lemma_sorted_unique(s.sort(), ordered, leq);
}

/// Law: a worker is late if and only if at least half of the workers finished,
/// it still runs without a backup, and it has taken more than twice the median
/// of the times of those that finished.
pub proof fn law_late_is_more_than_twice_the_median(ws: Seq<Progress>, i: int, since: u64, now: u64)
    requires
        0 <= i < ws.len(),
    ensures
        ws[i] == Progress::Running(since) && now >= since ==> (late(ws, i, now) <==> 2 * times(ws).len() >= ws.len() && now
            - since > twice_median(times(ws))),
        !(ws[i] is Running) ==> !late(ws, i, now),
        ws[i] == Progress::Running(since) && now < since ==> (late(ws, i, now) <==> 2 * times(ws).len() >= ws.len() && 0
            > twice_median(times(ws))),
{
}

/// Law: a backup is started for each worker that is late, once and in order, and
/// for no other.
pub proof fn law_backups_are_for_the_late(ws: Seq<Progress>, now: u64, n: nat, i: int)
    requires
        n <= ws.len(),
    ensures
        late_ones(ws, now, n).contains(i) <==> 0 <= i < n && late(ws, i, now),
        forall|a: int, b: int| 0 <= a < b < late_ones(ws, now, n).len() ==> #[trigger] late_ones(ws, now, n)[a] < #[trigger]
            late_ones(ws, now, n)[b],
        forall|a: int| 0 <= a < late_ones(ws, now, n).len() ==> 0 <= #[trigger] late_ones(ws, now, n)[a] < n,
    decreases n,
{
    if n > 0 {
        let front = late_ones(ws, now, (n - 1) as nat);
        let all = late_ones(ws, now, n);
        law_backups_are_for_the_late(ws, now, (n - 1) as nat, i);
        if late(ws, n - 1, now) {
            assert(all[all.len() - 1] == n - 1);
            if front.contains(i) {
                let k = choose|k: int| 0 <= k < front.len() && front[k] == i;
                assert(all[k] == i);
            }
            if all.contains(i) {
                let k = choose|k: int| 0 <= k < all.len() && all[k] == i;
                if k < front.len() {
                    assert(front[k] == i);
                }
            }
        }
    }
}

/// Law: a worker that finished took the time since it started, and none where the clock went back; a backup counts
/// from the start of the first. One that gave up beside its backup leaves the
/// other to decide, and the last one to give up is finished.
pub proof fn law_time_counts_from_the_start(ws: Seq<Progress>, i: int, since: u64, now: u64, k: int)
    requires
        0 <= i < ws.len(),
        ws[i] == Progress::Running(since) || ws[i] == Progress::Backed(since) || ws[i] == Progress::Last(since),
        0 <= k < ws.len(),
        k != i,
    ensures
        now < since ==> step(ws, Event::Finish(i, now))[i] == Progress::Finished(0),
        now < since && !(ws[i] is Backed) ==> step(ws, Event::GiveUp(i, now))[i] == Progress::Finished(0),
        now >= since ==> step(ws, Event::Finish(i, now))[i] == Progress::Finished((now - since) as u64),
        now >= since && !(ws[i] is Backed)
            ==> step(ws, Event::GiveUp(i, now))[i] == Progress::Finished((now - since) as u64),
        ws[i] is Backed ==> step(ws, Event::GiveUp(i, now))[i] == Progress::Last(since),
        step(ws, Event::Finish(i, now))[k] == ws[k] && step(ws, Event::GiveUp(i, now))[k] == ws[k],
        step(ws, Event::Look(now))[i] == (if late(ws, i, now) {
            Progress::Backed(since)
        } else {
            ws[i]
        }),
        step(ws, Event::Finish(i, now)).len() == ws.len(),
{
}

} // verus!
