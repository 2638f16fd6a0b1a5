//! Stragglers of a swarm. Once half of the workers have finished, a worker that
//! has run for more than twice their median time gets a backup, and the first
//! of the two to finish wins.
use vstd::prelude::*;
use vstd::relations::sorted_by;
use vstd::seq_lib::{group_to_multiset_ensures, lemma_sorted_unique};

verus! {

/// How far one worker has come. All times are in milliseconds.
#[derive(Clone, Copy)]
pub enum Progress {
    /// Alone since some time.
    Running(u64),
    /// Running since some time, with a backup beside it.
    Backed(u64),
    /// Running since some time, after it or its backup gave up.
    Last(u64),
    /// Finished after some time.
    Finished(u64),
}

/// What happens to the workers of a swarm.
pub enum Event {
    /// A worker or its backup finishes.
    Finish(int, u64),
    /// A worker or its backup gives up before it has run.
    GiveUp(int, u64),
    /// The workers are looked over.
    Look(u64),
}

/// How long it is from one time to another.
pub open spec fn elapsed(since: u64, now: u64) -> u64 {
    if now >= since {
        (now - since) as u64
    } else {
        0
    }
}

/// The times that the finished workers took, in the order of the workers.
pub open spec fn times(ws: Seq<Progress>) -> Seq<int>
    decreases ws.len(),
{
    if ws.len() == 0 {
        Seq::empty()
    } else {
        match ws.last() {
            Progress::Finished(t) => times(ws.drop_last()).push(t as int),
            _ => times(ws.drop_last()),
        }
    }
}

/// Whether at least half of the workers have finished.
pub open spec fn half_done(ws: Seq<Progress>) -> bool {
    2 * times(ws).len() >= ws.len()
}

/// Twice the median of some numbers: of an even count, the sum of the two in the
/// middle.
pub open spec fn twice_median(s: Seq<int>) -> int {
    let n = s.sort().len() as int;
    if n % 2 == 1 {
        2 * s.sort()[n / 2]
    } else {
        s.sort()[n / 2 - 1] + s.sort()[n / 2]
    }
}

/// Whether a worker is due for a backup.
pub open spec fn late(ws: Seq<Progress>, i: int, now: u64) -> bool {
    &&& half_done(ws)
    &&& ws[i] matches Progress::Running(since) && elapsed(since, now) > twice_median(times(ws))
}

/// Those of the first `n` workers that are due for a backup, in order.
pub open spec fn late_ones(ws: Seq<Progress>, now: u64, n: nat) -> Seq<int>
    decreases n,
{
    if n == 0 {
        Seq::empty()
    } else if late(ws, n - 1, now) {
        late_ones(ws, now, (n - 1) as nat).push(n - 1)
    } else {
        late_ones(ws, now, (n - 1) as nat)
    }
}

/// A worker that now has a backup.
pub open spec fn with_backup(p: Progress) -> Progress {
    match p {
        Progress::Running(since) => Progress::Backed(since),
        _ => p,
    }
}

/// Whether a worker is still to finish.
pub open spec fn open_worker(ws: Seq<Progress>, i: int) -> bool {
    0 <= i < ws.len() && !(ws[i] is Finished)
}

/// A worker that has finished.
pub open spec fn ended(p: Progress, now: u64) -> Progress {
    match p {
        Progress::Running(since) => Progress::Finished(elapsed(since, now)),
        Progress::Backed(since) => Progress::Finished(elapsed(since, now)),
        Progress::Last(since) => Progress::Finished(elapsed(since, now)),
        Progress::Finished(_) => p,
    }
}

/// A worker of which one gave up: the other goes on where there is one, and else
/// the worker has finished.
pub open spec fn given_up(p: Progress, now: u64) -> Progress {
    match p {
        Progress::Backed(since) => Progress::Last(since),
        _ => ended(p, now),
    }
}

/// The workers after something happened.
pub open spec fn step(ws: Seq<Progress>, e: Event) -> Seq<Progress> {
    match e {
        Event::Finish(i, now) => if open_worker(ws, i) {
            ws.update(i, ended(ws[i], now))
        } else {
            ws
        },
        Event::GiveUp(i, now) => if open_worker(ws, i) {
            ws.update(i, given_up(ws[i], now))
        } else {
            ws
        },
        Event::Look(now) => ws.map(
            |i: int, p: Progress|
                if late(ws, i, now) {
                    with_backup(p)
                } else {
                    p
                },
        ),
    }
}

/// The workers after all that happened.
pub open spec fn run(ws: Seq<Progress>, events: Seq<Event>) -> Seq<Progress>
    decreases events.len(),
{
    if events.len() == 0 {
        ws
    } else {
        step(run(ws, events.drop_last()), events.last())
    }
}

/// The workers of a swarm, as far as their times go.
pub struct Stragglers {
    workers: Vec<Progress>,
}

impl View for Stragglers {
    type V = Seq<Progress>;

    closed spec fn view(&self) -> Seq<Progress> {
        self.workers@
    }
}

/// How long it is from one time to another.
fn elapsed_ms(since: u64, now: u64) -> (r: u64)
    ensures
        r == elapsed(since, now),
{
    if now >= since {
        now - since
    } else {
        0
    }
}

/// Numbers as integers.
spec fn integers(s: Seq<u64>) -> Seq<int> {
    s.map_values(|t: u64| t as int)
}

/// Whether numbers are in order.
spec fn ascending(s: Seq<u64>) -> bool {
    forall|i: int, j: int| 0 <= i <= j < s.len() ==> s[i] <= s[j]
}

/// Puts a number among others in order.
fn put_in_order(list: &mut Vec<u64>, t: u64)
    requires
        ascending(old(list)@),
        old(list)@.len() < usize::MAX,
    ensures
        ascending(final(list)@),
        final(list)@.len() == old(list)@.len() + 1,
        integers(final(list)@).to_multiset() =~= integers(old(list)@).to_multiset().insert(t as int),
{
    let mut k: usize = 0;
    while k < list.len() && list[k] <= t
        invariant
            k <= list@.len(),
            list@ == old(list)@,
            forall|j: int| 0 <= j < k ==> list@[j] <= t,
        decreases list.len() - k,
    {
        k += 1;
    }
    list.insert(k, t);
    proof {
        broadcast use group_to_multiset_ensures;

        assert(integers(list@) =~= integers(old(list)@).insert(k as int, t as int));
    }
}

/// Numbers in order are what sorting them gives.
proof fn lemma_in_order(list: Seq<u64>, s: Seq<int>)
    requires
        ascending(list),
        integers(list).to_multiset() =~= s.to_multiset(),
    ensures
        integers(list) =~= s.sort(),
{
    s.lemma_sort_ensures();
    let leq = |x: int, y: int| x <= y;
    assert(sorted_by(integers(list), leq));
    lemma_sorted_unique(integers(list), s.sort(), leq);
}

impl Stragglers {
    /// The workers of a swarm that all start now.
    pub fn new(count: usize, now: u64) -> (r: Stragglers)
        ensures
            r@ == Seq::new(count as nat, |i: int| Progress::Running(now)),
    {
        let mut workers: Vec<Progress> = Vec::new();
        let mut i: usize = 0;
        while i < count
            invariant
                i <= count,
                workers@ == Seq::new(i as nat, |j: int| Progress::Running(now)),
            decreases count - i,
        {
            workers.push(Progress::Running(now));
            i += 1;
        }
        Stragglers { workers }
    }

    /// Notes that a worker or its backup finished, and says whether it is the
    /// first of the two: only then does its outcome count.
    pub fn finish(&mut self, index: usize, now: u64) -> (r: bool)
        ensures
            r == open_worker(old(self)@, index as int),
            final(self)@ == step(old(self)@, Event::Finish(index as int, now)),
    {
        if index >= self.workers.len() {
            return false;
        }
        match self.workers[index] {
            Progress::Running(since) => {
                self.workers.set(index, Progress::Finished(elapsed_ms(since, now)));
                true
            },
            Progress::Backed(since) => {
                self.workers.set(index, Progress::Finished(elapsed_ms(since, now)));
                true
            },
            Progress::Last(since) => {
                self.workers.set(index, Progress::Finished(elapsed_ms(since, now)));
                true
            },
            Progress::Finished(_) => false,
        }
    }

    /// Notes that a worker or its backup gave up before it has run, and says
    /// whether it was the last of the two: only then does its outcome count.
    pub fn give_up(&mut self, index: usize, now: u64) -> (r: bool)
        ensures
            r == (open_worker(old(self)@, index as int) && !(old(self)@[index as int] is Backed)),
            final(self)@ == step(old(self)@, Event::GiveUp(index as int, now)),
    {
        if index >= self.workers.len() {
            return false;
        }
        match self.workers[index] {
            Progress::Backed(since) => {
                self.workers.set(index, Progress::Last(since));
                false
            },
            _ => self.finish(index, now),
        }
    }

    /// The times of the finished workers, in ascending order.
    fn sorted_times(&self) -> (r: Vec<u64>)
        ensures
            integers(r@) =~= times(self@).sort(),
            r@.len() == times(self@).len() <= self@.len(),
    {
        let mut list: Vec<u64> = Vec::new();
        let mut i: usize = 0;
        assert(self.workers@.take(0) =~= Seq::empty());
        assert(integers(list@) =~= Seq::empty());
        while i < self.workers.len()
            invariant
                i <= self.workers@.len(),
                list@.len() <= i,
                ascending(list@),
                list@.len() == times(self.workers@.take(i as int)).len(),
                integers(list@).to_multiset() =~= times(self.workers@.take(i as int)).to_multiset(),
            decreases self.workers.len() - i,
        {
            proof {
                broadcast use group_to_multiset_ensures;

                let next = self.workers@.take(i + 1);
                assert(next.drop_last() =~= self.workers@.take(i as int));
                assert(next.last() == self.workers@[i as int]);
            }
            match self.workers[i] {
                Progress::Finished(t) => put_in_order(&mut list, t),
                _ => {},
            }
            i += 1;
        }
        proof {
            assert(self.workers@.take(i as int) =~= self.workers@);
            lemma_in_order(list@, times(self@));
        }
        list
    }

    /// The workers that get a backup now: once half have finished, those that
    /// run alone for more than twice the median time.
    pub fn backups(&mut self, now: u64) -> (r: Vec<usize>)
        ensures
            r@.map_values(|i: usize| i as int) =~= late_ones(old(self)@, now, old(self)@.len()),
            final(self)@ =~= step(old(self)@, Event::Look(now)),
    {
        let mut r: Vec<usize> = Vec::new();
        let list: Vec<u64> = self.sorted_times();
        let n: usize = list.len();
        let ghost before = self.workers@;
        if n < self.workers.len() - n {
            proof {
                lemma_nothing_late(before, now, before.len());
            }
            return r;
        }
        if self.workers.len() == 0 {
            return r;
        }
        assert(times(before).sort() =~= integers(list@));
        let bound: u128 = if n % 2 == 1 {
            2 * (list[n / 2] as u128)
        } else {
            list[n / 2 - 1] as u128 + list[n / 2] as u128
        };
        assert(bound == twice_median(times(before)));
        let mut i: usize = 0;
        while i < self.workers.len()
            invariant
                i <= self.workers@.len(),
                self.workers@.len() == before.len(),
                half_done(before),
                bound == twice_median(times(before)),
                forall|j: int| i <= j < before.len() ==> self.workers@[j] == before[j],
                forall|j: int| 0 <= j < i ==> self.workers@[j] == #[trigger] step(before, Event::Look(now))[j],
                r@.map_values(|k: usize| k as int) =~= late_ones(before, now, i as nat),
            decreases self.workers.len() - i,
        {
            match self.workers[i] {
                Progress::Running(since) => {
                    if elapsed_ms(since, now) as u128 > bound {
                        self.workers.set(i, Progress::Backed(since));
                        r.push(i);
                    }
                },
                _ => {},
            }
            i += 1;
        }
        r
    }

    /// Whether every worker has finished.
    pub fn done(&self) -> (r: bool)
        ensures
            r == forall|i: int| !open_worker(self@, i),
    {
        let mut i: usize = 0;
        while i < self.workers.len()
            invariant
                i <= self.workers@.len(),
                forall|j: int| 0 <= j < i ==> !open_worker(self@, j),
            decreases self.workers.len() - i,
        {
            match self.workers[i] {
                Progress::Finished(_) => {},
                _ => {
                    assert(open_worker(self@, i as int));
                    return false;
                },
            }
            i += 1;
        }
        true
    }
}

proof fn lemma_nothing_late(ws: Seq<Progress>, now: u64, n: nat)
    requires
        !half_done(ws),
    ensures
        late_ones(ws, now, n) =~= Seq::empty(),
    decreases n,
{
    if n > 0 {
        lemma_nothing_late(ws, now, (n - 1) as nat);
    }
}

/// Before half of the workers have finished no backup is started, and nothing
/// changes.
pub proof fn law_no_backup_before_half(ws: Seq<Progress>, now: u64)
    requires
        !half_done(ws),
    ensures
        late_ones(ws, now, ws.len()) == Seq::<int>::empty(),
        step(ws, Event::Look(now)) == ws,
{
    lemma_nothing_late(ws, now, ws.len());
    assert(step(ws, Event::Look(now)) =~= ws);
}

/// A worker gets one backup: whatever happens after it got one, it is never due
/// for another.
pub proof fn law_one_backup_per_worker(ws: Seq<Progress>, i: int, now: u64, events: Seq<Event>, later: u64)
    requires
        0 <= i < ws.len(),
        late(ws, i, now),
    ensures
        !late(run(step(ws, Event::Look(now)), events), i, later),
{
    let start = step(ws, Event::Look(now));
    assert(start[i] is Backed);
    lemma_never_alone_again(start, i, events);
}

proof fn lemma_never_alone_again(ws: Seq<Progress>, i: int, events: Seq<Event>)
    requires
        0 <= i < ws.len(),
        !(ws[i] is Running),
    ensures
        run(ws, events).len() == ws.len(),
        !(run(ws, events)[i] is Running),
    decreases events.len(),
{
    if events.len() > 0 {
        lemma_never_alone_again(ws, i, events.drop_last());
    }
}

/// The first to finish wins: once a worker or its backup has finished, nothing
/// that happens later counts as its finish or changes its time.
pub proof fn law_first_to_finish_wins(ws: Seq<Progress>, i: int, now: u64, events: Seq<Event>)
    requires
        open_worker(ws, i),
    ensures
        !open_worker(run(step(ws, Event::Finish(i, now)), events), i),
        run(step(ws, Event::Finish(i, now)), events)[i] == ended(ws[i], now),
    decreases events.len(),
{
    let start = step(ws, Event::Finish(i, now));
    lemma_same_workers(start, events);
    if events.len() > 0 {
        law_first_to_finish_wins(ws, i, now, events.drop_last());
        lemma_same_workers(start, events.drop_last());
    }
}

/// A worker that gives up while its backup runs, or the other way round, does not
/// decide: the other one does, by its own end.
pub proof fn law_the_other_one_decides(ws: Seq<Progress>, i: int, now: u64, later: u64)
    requires
        0 <= i < ws.len(),
        ws[i] is Backed,
    ensures
        open_worker(step(ws, Event::GiveUp(i, now)), i),
        step(step(ws, Event::GiveUp(i, now)), Event::Finish(i, later))[i] == ended(ws[i], later),
        step(step(ws, Event::GiveUp(i, now)), Event::GiveUp(i, later))[i] == ended(ws[i], later),
{
}

proof fn lemma_same_workers(ws: Seq<Progress>, events: Seq<Event>)
    ensures
        run(ws, events).len() == ws.len(),
    decreases events.len(),
{
    if events.len() > 0 {
        lemma_same_workers(ws, events.drop_last());
    }
}

} // verus!
