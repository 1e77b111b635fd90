//! Worker identity: index, count and key.

use vstd::prelude::*;

verus! {

/// Index of a worker in a cluster.
#[derive(Debug, Clone, Copy, PartialEq, Eq, Structural, Hash, PartialOrd, Ord)]
pub struct WorkerIndex(pub usize);

/// Number of workers in a cluster.
#[derive(Debug, Clone, Copy, PartialEq, Eq, Structural, Hash)]
pub struct WorkerCount(pub usize);

impl WorkerCount {
    /// All the workers of this cluster, in index order.
    pub fn iter(&self) -> (r: Vec<WorkerIndex>)
        ensures
            r@.len() == self.0,
            forall|i: int| 0 <= i < r@.len() ==> #[trigger] r@[i] == WorkerIndex(i as usize),
    {
        let mut r: Vec<WorkerIndex> = Vec::new();
        let mut i: usize = 0;
        while i < self.0
            invariant
                i <= self.0,
                r@.len() == i,
                forall|j: int| 0 <= j < r@.len() ==> #[trigger] r@[j] == WorkerIndex(j as usize),
            decreases self.0 - i,
        {
            r.push(WorkerIndex(i));
            i = i + 1;
        }
        r
    }
}

/// Identity of one worker in one execution generation: progress records
/// are keyed by it.
#[derive(Debug, Clone, Copy, PartialEq, Eq, Structural, Hash)]
pub struct WorkerKey(pub u64, pub WorkerIndex);

} // verus!
