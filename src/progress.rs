//! Progress records: what a worker writes when it joins a generation and
//! when its output frontier advances, and where a restart resumes.

use vstd::prelude::*;
use crate::worker::{WorkerCount, WorkerKey};

verus! {

/// Where an execution resumes: its generation, and the first epoch whose
/// outputs must be derived again.
#[derive(Debug, Clone, Copy, PartialEq, Eq, Structural)]
pub struct ResumeFrom(pub u64, pub u64);

/// What a worker records about its progress.
#[derive(Debug, Clone, Copy, PartialEq, Eq, Structural)]
pub enum ProgressMsg {
    /// The worker joined a generation of this many workers, resuming at
    /// this epoch.
    Init(WorkerCount, u64),
    /// The worker's output frontier reached this epoch.
    Frontier(u64),
}

/// A change to one key of a log.
#[derive(Debug, Clone, Copy, PartialEq, Eq, Structural)]
pub enum Change {
    Upsert(ProgressMsg),
    Delete,
}

/// A change to the progress log, keyed by worker.
#[derive(Debug, Clone, Copy, PartialEq, Eq, Structural)]
pub struct KChange(pub WorkerKey, pub Change);

/// The record that marks a worker as present in a new generation.
pub fn initial_progress(key: WorkerKey, count: WorkerCount, resume_epoch: u64) -> (r: KChange)
    ensures
        r == KChange(key, Change::Upsert(ProgressMsg::Init(count, resume_epoch))),
{
    KChange(key, Change::Upsert(ProgressMsg::Init(count, resume_epoch)))
}

/// The larger of two epochs.
pub open spec fn max_epoch(a: u64, b: u64) -> u64 {
    if a >= b { a } else { b }
}

/// The frontier after a starting frontier has seen each epoch in turn.
pub open spec fn frontier_after(start: u64, seen: Seq<u64>) -> u64
    decreases seen.len(),
{
    if seen.len() == 0 {
        start
    } else {
        max_epoch(frontier_after(start, seen.drop_last()), seen.last())
    }
}

/// Watches a worker's output frontier and turns each advance into a
/// progress record.
pub struct ProgressObserver {
    pub key: WorkerKey,
    pub frontier: u64,
}

impl ProgressObserver {
    /// An observer whose frontier starts at the epoch the worker resumes
    /// from.
    pub fn new(key: WorkerKey, resume_epoch: u64) -> (r: Self)
        ensures
            r.key == key,
            r.frontier == resume_epoch,
    {
        ProgressObserver { key, frontier: resume_epoch }
    }

    /// The output frontier is now at `epoch`. Returns the record to write
    /// when the frontier advanced, and nothing otherwise.
    pub fn observe(&mut self, epoch: u64) -> (r: Option<KChange>)
        ensures
            final(self).key == old(self).key,
            final(self).frontier == max_epoch(old(self).frontier, epoch),
            final(self).frontier >= old(self).frontier,
            r == (if epoch > old(self).frontier {
                Some(KChange(old(self).key, Change::Upsert(ProgressMsg::Frontier(epoch))))
            } else {
                None
            }),
    {
        if epoch > self.frontier {
            self.frontier = epoch;
            Some(KChange(self.key, Change::Upsert(ProgressMsg::Frontier(epoch))))
        } else {
            None
        }
    }
}

/// The recorded output frontier never moves back: after any sequence of
/// observed epochs, a later point of the sequence has a frontier at least
/// as far as an earlier one.
pub proof fn frontier_is_monotone(start: u64, seen: Seq<u64>, i: int, j: int)
    requires
        0 <= i <= j <= seen.len(),
    ensures
        frontier_after(start, seen.subrange(0, i)) <= frontier_after(start, seen.subrange(0, j)),
    decreases j - i,
{
    if i < j {
        frontier_is_monotone(start, seen, i, j - 1);
        assert(seen.subrange(0, j).drop_last() =~= seen.subrange(0, j - 1));
    }
}

/// The epoch that a progress record says a worker has reached.
pub open spec fn record_epoch(c: Change) -> Option<u64> {
    match c {
        Change::Upsert(ProgressMsg::Init(_, e)) => Some(e),
        Change::Upsert(ProgressMsg::Frontier(e)) => Some(e),
        Change::Delete => None,
    }
}

/// The lesser of an optional epoch and an epoch.
pub open spec fn min_into(a: Option<u64>, b: u64) -> Option<u64> {
    match a {
        Some(x) => Some(if x <= b { x } else { b }),
        None => Some(b),
    }
}

/// The larger of an optional epoch and an epoch.
pub open spec fn max_into(a: Option<u64>, b: u64) -> Option<u64> {
    match a {
        Some(x) => Some(max_epoch(x, b)),
        None => Some(b),
    }
}

/// The latest generation among the first `n` records of a progress log.
pub open spec fn last_generation(log: Seq<KChange>, n: int) -> u64
    decreases n,
{
    if n <= 0 {
        0
    } else {
        max_epoch(last_generation(log, n - 1), log[n - 1].0.0)
    }
}

/// The furthest epoch that worker `key` durably reached, by the first `n`
/// records of a progress log.
pub open spec fn durable_frontier(log: Seq<KChange>, n: int, key: WorkerKey) -> Option<u64>
    decreases n,
{
    if n <= 0 {
        None
    } else {
        let prev = durable_frontier(log, n - 1, key);
        match record_epoch(log[n - 1].1) {
            Some(e) if log[n - 1].0 == key => max_into(prev, e),
            _ => prev,
        }
    }
}

/// The least durable frontier among the workers of generation `g` that
/// wrote one of the first `n` records of a log.
pub open spec fn common_frontier(log: Seq<KChange>, n: int, g: u64) -> Option<u64>
    decreases n,
{
    if n <= 0 {
        None
    } else {
        let prev = common_frontier(log, n - 1, g);
        let key = log[n - 1].0;
        match durable_frontier(log, log.len() as int, key) {
            Some(e) if key.0 == g => min_into(prev, e),
            _ => prev,
        }
    }
}

/// Where an execution resumes after the progress log `log`: in the
/// generation after the latest one, at the least frontier that the
/// workers of the latest generation durably reached (epoch 0 when none
/// did).
pub open spec fn resume_point(log: Seq<KChange>) -> ResumeFrom {
    let g = last_generation(log, log.len() as int);
    let epoch = match common_frontier(log, log.len() as int, g) {
        Some(e) => e,
        None => 0,
    };
    if log.len() == 0 {
        ResumeFrom(0, 0)
    } else {
        ResumeFrom((g + 1) as u64, epoch)
    }
}

fn worker_frontier(log: &Vec<KChange>, key: WorkerKey) -> (r: Option<u64>)
    ensures
        r == durable_frontier(log@, log@.len() as int, key),
{
    let mut r: Option<u64> = None;
    let mut j: usize = 0;
    while j < log.len()
        invariant
            j <= log@.len(),
            r == durable_frontier(log@, j as int, key),
        decreases log@.len() - j,
    {
        let KChange(k, change) = log[j];
        let epoch: Option<u64> = match change {
            Change::Upsert(ProgressMsg::Init(_, e)) => Some(e),
            Change::Upsert(ProgressMsg::Frontier(e)) => Some(e),
            Change::Delete => None,
        };
        match epoch {
            Some(e) => {
                if k == key {
                    r = match r {
                        Some(x) => Some(if x >= e { x } else { e }),
                        None => Some(e),
                    };
                }
            },
            None => {},
        }
        j = j + 1;
    }
    r
}

/// Replays a progress log, in write order, to find where the next
/// execution resumes.
pub fn resume_from_progress(log: &Vec<KChange>) -> (r: ResumeFrom)
    requires
        forall|i: int| 0 <= i < log@.len() ==> (#[trigger] log@[i]).0.0 < u64::MAX,
    ensures
        r == resume_point(log@),
{
    if log.len() == 0 {
        return ResumeFrom(0, 0);
    }
    let mut g: u64 = 0;
    let mut i: usize = 0;
    while i < log.len()
        invariant
            i <= log@.len(),
            g == last_generation(log@, i as int),
            forall|j: int| 0 <= j < log@.len() ==> (#[trigger] log@[j]).0.0 < u64::MAX,
            g < u64::MAX,
        decreases log@.len() - i,
    {
        let gen = log[i].0.0;
        if gen > g {
            g = gen;
        }
        i = i + 1;
    }
    let mut common: Option<u64> = None;
    let mut i: usize = 0;
    while i < log.len()
        invariant
            i <= log@.len(),
            common == common_frontier(log@, i as int, g),
        decreases log@.len() - i,
    {
        let key = log[i].0;
        if key.0 == g {
            match worker_frontier(log, key) {
                Some(e) => {
                    common = match common {
                        Some(x) => Some(if x <= e { x } else { e }),
                        None => Some(e),
                    };
                },
                None => {},
            }
        }
        i = i + 1;
    }
    let epoch: u64 = match common {
        Some(e) => e,
        None => 0,
    };
    ResumeFrom(g + 1, epoch)
}

proof fn lemma_last_generation_bounds(log: Seq<KChange>, n: int, i: int)
    requires
        0 <= i < n <= log.len(),
    ensures
        log[i].0.0 <= last_generation(log, n),
    decreases n,
{
    if i < n - 1 {
        lemma_last_generation_bounds(log, n - 1, i);
    }
}

proof fn lemma_last_generation_below(log: Seq<KChange>, n: int)
    requires
        n <= log.len(),
        forall|j: int| 0 <= j < log.len() ==> (#[trigger] log[j]).0.0 < u64::MAX,
    ensures
        last_generation(log, n) < u64::MAX,
    decreases n,
{
    if n > 0 {
        lemma_last_generation_below(log, n - 1);
        assert(log[n - 1].0.0 < u64::MAX);
    }
}

proof fn lemma_durable_some(log: Seq<KChange>, n: int, i: int)
    requires
        0 <= i < n <= log.len(),
        record_epoch(log[i].1) is Some,
    ensures
        durable_frontier(log, n, log[i].0) is Some,
        record_epoch(log[i].1)->Some_0 <= durable_frontier(log, n, log[i].0)->Some_0,
    decreases n,
{
    if i < n - 1 {
        lemma_durable_some(log, n - 1, i);
    }
}

proof fn lemma_common_below(log: Seq<KChange>, n: int, i: int, g: u64)
    requires
        0 <= i < n <= log.len(),
        log[i].0.0 == g,
        durable_frontier(log, log.len() as int, log[i].0) is Some,
    ensures
        common_frontier(log, n, g) is Some,
        common_frontier(log, n, g)->Some_0 <= durable_frontier(log, log.len() as int, log[i].0)->Some_0,
    decreases n,
{
    if i < n - 1 {
        lemma_common_below(log, n - 1, i, g);
    }
}

/// Resuming never skips what was not durably finished: the next
/// execution's generation is later than every generation in the log, and
/// it resumes at an epoch no later than the durable frontier of any worker
/// of the latest generation, so every epoch that some worker had not
/// finished is processed again.
pub proof fn resume_replays_undurable_epochs(log: Seq<KChange>, i: int)
    requires
        0 <= i < log.len(),
        forall|j: int| 0 <= j < log.len() ==> (#[trigger] log[j]).0.0 < u64::MAX,
    ensures
        log[i].0.0 < resume_point(log).0,
        log[i].0.0 == last_generation(log, log.len() as int) && record_epoch(log[i].1) is Some
            ==> resume_point(log).1 <= durable_frontier(log, log.len() as int, log[i].0)->Some_0,
{
    let n = log.len() as int;
    lemma_last_generation_bounds(log, n, i);
    lemma_last_generation_below(log, n);
    if log[i].0.0 == last_generation(log, n) && record_epoch(log[i].1) is Some {
        lemma_durable_some(log, n, i);
        lemma_common_below(log, n, i, log[i].0.0);
    }
}

} // verus!
