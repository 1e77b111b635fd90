//! The per-key state of stateful steps (reduce, stateful map) and the
//! results of windowed steps.

use vstd::prelude::*;
use crate::state::KeyedBytes;

verus! {

/// The accumulator that a record of value `v` under key `k` leaves, before
/// it is checked for completeness: the reducer's result when the key has
/// an accumulator, else the value itself.
pub open spec fn next_acc(
    m: Map<Seq<char>, Seq<u8>>,
    k: Seq<char>,
    v: Seq<u8>,
    reducer: spec_fn(Seq<u8>, Seq<u8>) -> Seq<u8>,
) -> Seq<u8> {
    if m.contains_key(k) {
        reducer(m[k], v)
    } else {
        v
    }
}

/// One record through a reduce step: the accumulators after it, and the
/// pair it emits, if the new accumulator is complete.
pub open spec fn reduce_step(
    m: Map<Seq<char>, Seq<u8>>,
    k: Seq<char>,
    v: Seq<u8>,
    reducer: spec_fn(Seq<u8>, Seq<u8>) -> Seq<u8>,
    is_complete: spec_fn(Seq<u8>) -> bool,
) -> (Map<Seq<char>, Seq<u8>>, Option<(Seq<char>, Seq<u8>)>) {
    let acc = next_acc(m, k, v, reducer);
    if is_complete(acc) {
        (m.remove(k), Some((k, acc)))
    } else {
        (m.insert(k, acc), None)
    }
}

/// Records, in order, through a reduce step that starts with the
/// accumulators `m`: the accumulators after them, and the pairs emitted.
pub open spec fn reduce_run(
    m: Map<Seq<char>, Seq<u8>>,
    records: Seq<(Seq<char>, Seq<u8>)>,
    reducer: spec_fn(Seq<u8>, Seq<u8>) -> Seq<u8>,
    is_complete: spec_fn(Seq<u8>) -> bool,
) -> (Map<Seq<char>, Seq<u8>>, Seq<(Seq<char>, Seq<u8>)>)
    decreases records.len(),
{
    if records.len() == 0 {
        (m, Seq::empty())
    } else {
        let before = reduce_run(m, records.drop_last(), reducer, is_complete);
        let after = reduce_step(before.0, records.last().0, records.last().1, reducer, is_complete);
        (
            after.0,
            match after.1 {
                Some(x) => before.1.push(x),
                None => before.1,
            },
        )
    }
}

/// Resuming a reduce step from a snapshot of its accumulators is the same
/// as never stopping: running the records `a` and then, from the
/// accumulators that `a` left, the records `b` emits exactly what running
/// `a` and `b` in one go emits, and leaves the same accumulators.
pub proof fn resume_equivalence(
    m: Map<Seq<char>, Seq<u8>>,
    a: Seq<(Seq<char>, Seq<u8>)>,
    b: Seq<(Seq<char>, Seq<u8>)>,
    reducer: spec_fn(Seq<u8>, Seq<u8>) -> Seq<u8>,
    is_complete: spec_fn(Seq<u8>) -> bool,
)
    ensures
        ({
            let first = reduce_run(m, a, reducer, is_complete);
            let rest = reduce_run(first.0, b, reducer, is_complete);
            reduce_run(m, a + b, reducer, is_complete) == (rest.0, first.1 + rest.1)
        }),
    decreases b.len(),
{
    let first = reduce_run(m, a, reducer, is_complete);
    if b.len() == 0 {
        assert(a + b =~= a);
        assert(first.1 + Seq::<(Seq<char>, Seq<u8>)>::empty() =~= first.1);
    } else {
        let b0 = b.drop_last();
        resume_equivalence(m, a, b0, reducer, is_complete);
        assert((a + b).drop_last() =~= a + b0);
        assert((a + b).last() == b.last());
        let rest0 = reduce_run(first.0, b0, reducer, is_complete);
        let after = reduce_step(rest0.0, b.last().0, b.last().1, reducer, is_complete);
        match after.1 {
            Some(x) => {
                assert(first.1 + rest0.1.push(x) =~= (first.1 + rest0.1).push(x));
            },
            None => {},
        }
    }
}

/// The per-key accumulators of a reduce step on one worker.
///
/// The reducer and the completeness test are functions of the host: the
/// caller asks for a key's accumulator, runs the reducer, tests the result,
/// and settles it here.
pub struct ReduceLogic {
    acc: KeyedBytes,
}

impl ReduceLogic {
    /// Keys are unique.
    pub closed spec fn wf(&self) -> bool {
        self.acc.wf()
    }

    /// The accumulator of each key.
    pub closed spec fn view(&self) -> Map<Seq<char>, Seq<u8>> {
        self.acc@
    }

    /// A reduce step resuming from the accumulators `snapshot`.
    pub fn from_snapshot(snapshot: KeyedBytes) -> (r: Self)
        requires
            snapshot.wf(),
        ensures
            r.wf(),
            r@ == snapshot@,
    {
        ReduceLogic { acc: snapshot }
    }

    /// The accumulator of `key`, which the reducer combines with the next
    /// value of that key.
    pub fn accumulator(&self, key: &String) -> (r: Option<Vec<u8>>)
        requires
            self.wf(),
        ensures
            match r {
                Some(v) => self@.contains_key(key@) && v@ == self@[key@],
                None => !self@.contains_key(key@),
            },
    {
        self.acc.get(key)
    }

    /// Settles the new accumulator `acc` of `key`. When it is complete
    /// the pair is emitted and the key's accumulator dropped; else it is
    /// kept.
    pub fn settle(&mut self, key: String, acc: Vec<u8>, complete: bool) -> (r: Option<(String, Vec<u8>)>)
        requires
            old(self).wf(),
        ensures
            final(self).wf(),
            final(self)@ == (if complete {
                old(self)@.remove(key@)
            } else {
                old(self)@.insert(key@, acc@)
            }),
            r == (if complete { Some((key, acc)) } else { None::<(String, Vec<u8>)> }),
    {
        if complete {
            let _ = self.acc.remove(&key);
            Some((key, acc))
        } else {
            self.acc.insert(key, acc);
            None
        }
    }

    /// The accumulators to write to the state log when an epoch closes.
    pub fn snapshot(&self) -> (r: Vec<(String, Vec<u8>)>)
        requires
            self.wf(),
        ensures
            r@.len() == self@.len(),
            forall|i: int| 0 <= i < r@.len() ==> self@.contains_key(#[trigger] r@[i].0@) && self@[r@[i].0@] == r@[i].1@,
            forall|k: Seq<char>| self@.contains_key(k) ==> exists|i: int| 0 <= i < r@.len() && #[trigger] r@[i].0@ == k,
    {
        self.acc.to_vec()
    }
}

/// The per-key state of a stateful map step on one worker.
///
/// The builder and the mapper are functions of the host: the caller asks
/// for a key's state, builds a fresh one when there is none, runs the
/// mapper, and settles the new state here.
pub struct StatefulMapLogic {
    states: KeyedBytes,
}

impl StatefulMapLogic {
    /// Keys are unique.
    pub closed spec fn wf(&self) -> bool {
        self.states.wf()
    }

    /// The state of each key.
    pub closed spec fn view(&self) -> Map<Seq<char>, Seq<u8>> {
        self.states@
    }

    /// A stateful map step resuming from the states `snapshot`.
    pub fn from_snapshot(snapshot: KeyedBytes) -> (r: Self)
        requires
            snapshot.wf(),
        ensures
            r.wf(),
            r@ == snapshot@,
    {
        StatefulMapLogic { states: snapshot }
    }

    /// The state of `key`; none means the builder makes a fresh one.
    pub fn state(&self, key: &String) -> (r: Option<Vec<u8>>)
        requires
            self.wf(),
        ensures
            match r {
                Some(v) => self@.contains_key(key@) && v@ == self@[key@],
                None => !self@.contains_key(key@),
            },
    {
        self.states.get(key)
    }

    /// Settles the mapper's new state for `key`: none drops the key.
    pub fn settle(&mut self, key: String, new_state: Option<Vec<u8>>)
        requires
            old(self).wf(),
        ensures
            final(self).wf(),
            final(self)@ == (match new_state {
                Some(s) => old(self)@.insert(key@, s@),
                None => old(self)@.remove(key@),
            }),
    {
        match new_state {
            Some(s) => self.states.insert(key, s),
            None => {
                let _ = self.states.remove(&key);
            },
        }
    }
}

/// Why a window refused a value.
#[derive(Debug, Clone, Copy, PartialEq, Eq, Structural)]
pub enum WindowError {
    /// The value came after its window had closed.
    Late,
}

/// The window results kept among `items`, in order.
pub open spec fn kept_results(items: Seq<(String, Result<Vec<u8>, WindowError>)>) -> Seq<(Seq<char>, Seq<u8>)>
    decreases items.len(),
{
    if items.len() == 0 {
        Seq::empty()
    } else {
        let rest = kept_results(items.drop_last());
        match items.last().1 {
            Ok(v) => rest.push((items.last().0@, v@)),
            Err(_) => rest,
        }
    }
}

/// Text and bytes pairs as mathematical values.
pub open spec fn pairs_view(s: Seq<(String, Vec<u8>)>) -> Seq<(Seq<char>, Seq<u8>)> {
    s.map_values(|p: (String, Vec<u8>)| (p.0@, p.1@))
}

/// Keeps the results that a windowed step emitted, each with its key, in
/// order, and drops the errors (late data).
pub fn drop_late(items: &Vec<(String, Result<Vec<u8>, WindowError>)>) -> (r: Vec<(String, Vec<u8>)>)
    ensures
        pairs_view(r@) == kept_results(items@),
{
    let mut kept: Vec<(String, Vec<u8>)> = Vec::new();
    let mut i: usize = 0;
    assert(pairs_view(kept@) =~= kept_results(items@.subrange(0, 0)));
    while i < items.len()
        invariant
            i <= items@.len(),
            pairs_view(kept@) == kept_results(items@.subrange(0, i as int)),
        decreases items@.len() - i,
    {
        let ghost before = kept@;
        assert(items@.subrange(0, i as int + 1).drop_last() =~= items@.subrange(0, i as int));
        match &items[i].1 {
            Ok(v) => {
                let key = items[i].0.clone();
                let value = v.clone();
                assert(value@ =~= v@);
                kept.push((key, value));
                assert(pairs_view(kept@) =~= pairs_view(before).push((key@, value@)));
            },
            Err(_) => {},
        }
        i = i + 1;
    }
    assert(items@.subrange(0, items@.len() as int) =~= items@);
    kept
}

} // verus!
