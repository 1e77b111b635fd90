//! Serialized values keyed by text: the saved state of a dataflow's steps
//! and the per-key state of a stateful step.

use vstd::prelude::*;

verus! {

/// Serialized values keyed by text, each key at most once.
pub struct KeyedBytes {
    entries: Vec<(String, Vec<u8>)>,
}

/// The saved state of every stateful step of a dataflow, keyed by step id.
///
/// Filled from the recovery store when a worker starts, and consumed while
/// the dataflow is built: each stateful step takes its own entry out.
pub type FlowStateBytes = KeyedBytes;

/// The step id of each entry.
pub open spec fn key_at(s: Seq<(String, Vec<u8>)>, i: int) -> Seq<char> {
    s[i].0@
}

/// No two entries share a step id.
pub open spec fn keys_unique(s: Seq<(String, Vec<u8>)>) -> bool {
    forall|i: int, j: int|
        0 <= i < s.len() && 0 <= j < s.len() && i != j ==> key_at(s, i) != key_at(s, j)
}

/// The step ids and states held by a sequence of entries.
pub open spec fn map_of(s: Seq<(String, Vec<u8>)>) -> Map<Seq<char>, Seq<u8>> {
    Map::new(
        |k: Seq<char>| exists|i: int| 0 <= i < s.len() && key_at(s, i) == k,
        |k: Seq<char>| s[choose|i: int| 0 <= i < s.len() && key_at(s, i) == k].1@,
    )
}

proof fn lemma_map_of_at(s: Seq<(String, Vec<u8>)>, i: int)
    requires
        keys_unique(s),
        0 <= i < s.len(),
    ensures
        map_of(s).contains_key(key_at(s, i)),
        map_of(s)[key_at(s, i)] == s[i].1@,
{
    let k = key_at(s, i);
    assert(0 <= i < s.len() && key_at(s, i) == k);
    let j = choose|j: int| 0 <= j < s.len() && key_at(s, j) == k;
    assert(j == i);
}

proof fn lemma_map_of_remove(s: Seq<(String, Vec<u8>)>, i: int)
    requires
        keys_unique(s),
        0 <= i < s.len(),
    ensures
        keys_unique(s.remove(i)),
        map_of(s.remove(i)) == map_of(s).remove(key_at(s, i)),
{
    let t = s.remove(i);
    assert forall|a: int, b: int|
        0 <= a < t.len() && 0 <= b < t.len() && a != b implies key_at(t, a) != key_at(t, b) by {
        let a0 = if a < i { a } else { a + 1 };
        let b0 = if b < i { b } else { b + 1 };
        assert(key_at(t, a) == key_at(s, a0));
        assert(key_at(t, b) == key_at(s, b0));
    }
    let m = map_of(s).remove(key_at(s, i));
    assert forall|k: Seq<char>| #[trigger] map_of(t).contains_key(k) == m.contains_key(k) by {
        if map_of(t).contains_key(k) {
            let a = choose|a: int| 0 <= a < t.len() && key_at(t, a) == k;
            let a0 = if a < i { a } else { a + 1 };
            assert(key_at(s, a0) == k);
            lemma_map_of_at(s, a0);
        }
        if m.contains_key(k) {
            let a0 = choose|a: int| 0 <= a < s.len() && key_at(s, a) == k;
            assert(a0 != i);
            let a = if a0 < i { a0 } else { a0 - 1 };
            assert(key_at(t, a) == k);
        }
    }
    assert forall|k: Seq<char>| #[trigger] map_of(t).contains_key(k) implies map_of(t)[k] == m[k] by {
        let a = choose|a: int| 0 <= a < t.len() && key_at(t, a) == k;
        let a0 = if a < i { a } else { a + 1 };
        assert(key_at(s, a0) == k);
        lemma_map_of_at(s, a0);
        lemma_map_of_at(t, a);
    }
    assert(map_of(t) =~= m);
}

proof fn lemma_map_of_push(s: Seq<(String, Vec<u8>)>, e: (String, Vec<u8>))
    requires
        keys_unique(s),
        !map_of(s).contains_key(e.0@),
    ensures
        keys_unique(s.push(e)),
        map_of(s.push(e)) == map_of(s).insert(e.0@, e.1@),
{
    let t = s.push(e);
    let n = s.len() as int;
    assert forall|a: int, b: int|
        0 <= a < t.len() && 0 <= b < t.len() && a != b implies key_at(t, a) != key_at(t, b) by {
        if a == n {
            assert(key_at(t, b) == key_at(s, b));
        } else if b == n {
            assert(key_at(t, a) == key_at(s, a));
        } else {
            assert(key_at(t, a) == key_at(s, a));
            assert(key_at(t, b) == key_at(s, b));
        }
    }
    let m = map_of(s).insert(e.0@, e.1@);
    assert forall|k: Seq<char>| #[trigger] map_of(t).contains_key(k) == m.contains_key(k) by {
        if map_of(t).contains_key(k) {
            let a = choose|a: int| 0 <= a < t.len() && key_at(t, a) == k;
            if a < n {
                assert(key_at(s, a) == k);
            }
        }
        if m.contains_key(k) {
            if k == e.0@ {
                assert(key_at(t, n) == k);
            } else {
                let a = choose|a: int| 0 <= a < s.len() && key_at(s, a) == k;
                assert(key_at(t, a) == k);
            }
        }
    }
    assert forall|k: Seq<char>| #[trigger] map_of(t).contains_key(k) implies map_of(t)[k] == m[k] by {
        let a = choose|a: int| 0 <= a < t.len() && key_at(t, a) == k;
        lemma_map_of_at(t, a);
        if a < n {
            assert(key_at(s, a) == k);
            lemma_map_of_at(s, a);
        }
    }
    assert(map_of(t) =~= m);
}

proof fn lemma_map_of_len(s: Seq<(String, Vec<u8>)>)
    requires
        keys_unique(s),
    ensures
        map_of(s).dom().finite(),
        map_of(s).len() == s.len(),
    decreases s.len(),
{
    if s.len() == 0 {
        assert(map_of(s).dom() =~= Set::<Seq<char>>::empty());
    } else {
        let l = s.len() - 1;
        let k = key_at(s, l);
        lemma_map_of_remove(s, l);
        lemma_map_of_at(s, l);
        lemma_map_of_len(s.remove(l));
        assert(map_of(s).dom() =~= map_of(s.remove(l)).dom().insert(k));
    }
}

impl KeyedBytes {
    /// Step ids are unique.
    pub closed spec fn wf(&self) -> bool {
        keys_unique(self.entries@)
    }

    /// The state saved for each step id.
    pub closed spec fn view(&self) -> Map<Seq<char>, Seq<u8>> {
        map_of(self.entries@)
    }

    /// No saved state at all.
    pub fn new() -> (r: Self)
        ensures
            r.wf(),
            r@ == Map::<Seq<char>, Seq<u8>>::empty(),
    {
        let r = KeyedBytes { entries: Vec::new() };
        assert(map_of(r.entries@) =~= Map::<Seq<char>, Seq<u8>>::empty());
        r
    }

    /// Number of steps with saved state.
    pub fn len(&self) -> (r: usize)
        requires
            self.wf(),
        ensures
            r == self@.len(),
    {
        proof {
            lemma_map_of_len(self.entries@);
        }
        self.entries.len()
    }

    /// Whether no step has saved state.
    pub fn is_empty(&self) -> (r: bool)
        requires
            self.wf(),
        ensures
            r == (self@.len() == 0),
    {
        self.len() == 0
    }

    fn find(&self, step_id: &String) -> (r: Option<usize>)
        requires
            self.wf(),
        ensures
            match r {
                Some(i) => i < self.entries@.len() && key_at(self.entries@, i as int) == step_id@,
                None => !self@.contains_key(step_id@),
            },
    {
        let mut i: usize = 0;
        while i < self.entries.len()
            invariant
                i <= self.entries@.len(),
                forall|j: int| 0 <= j < i ==> key_at(self.entries@, j) != step_id@,
            decreases self.entries@.len() - i,
        {
            if self.entries[i].0 == *step_id {
                return Some(i);
            }
            i = i + 1;
        }
        None
    }

    /// The value saved under `key`, if any.
    pub fn get(&self, key: &String) -> (r: Option<Vec<u8>>)
        requires
            self.wf(),
        ensures
            match r {
                Some(v) => self@.contains_key(key@) && v@ == self@[key@],
                None => !self@.contains_key(key@),
            },
    {
        match self.find(key) {
            Some(i) => {
                proof {
                    lemma_map_of_at(self.entries@, i as int);
                }
                let v = self.entries[i].1.clone();
                assert(v@ =~= self.entries@[i as int].1@);
                Some(v)
            },
            None => None,
        }
    }

    /// Takes out the state saved for `step_id`, if any.
    pub fn remove(&mut self, step_id: &String) -> (r: Option<Vec<u8>>)
        requires
            old(self).wf(),
        ensures
            final(self).wf(),
            final(self)@ == old(self)@.remove(step_id@),
            match r {
                Some(v) => old(self)@.contains_key(step_id@) && v@ == old(self)@[step_id@],
                None => !old(self)@.contains_key(step_id@),
            },
    {
        match self.find(step_id) {
            Some(i) => {
                proof {
                    lemma_map_of_at(self.entries@, i as int);
                    lemma_map_of_remove(self.entries@, i as int);
                }
                let (_, state) = self.entries.remove(i);
                Some(state)
            },
            None => {
                assert(self@.remove(step_id@) =~= self@);
                None
            },
        }
    }

    /// Saves `state` for `step_id`, in place of any state saved for it.
    pub fn insert(&mut self, step_id: String, state: Vec<u8>)
        requires
            old(self).wf(),
        ensures
            final(self).wf(),
            final(self)@ == old(self)@.insert(step_id@, state@),
    {
        let _ = self.remove(&step_id);
        proof {
            lemma_map_of_push(self.entries@, (step_id, state));
        }
        self.entries.push((step_id, state));
        assert(self@ =~= old(self)@.insert(step_id@, state@));
    }

    /// Every key with its value.
    pub fn to_vec(&self) -> (r: Vec<(String, Vec<u8>)>)
        requires
            self.wf(),
        ensures
            r@.len() == self@.len(),
            forall|i: int| 0 <= i < r@.len() ==> self@.contains_key(#[trigger] r@[i].0@) && self@[r@[i].0@] == r@[i].1@,
            forall|k: Seq<char>| self@.contains_key(k) ==> exists|i: int| 0 <= i < r@.len() && #[trigger] r@[i].0@ == k,
    {
        proof {
            lemma_map_of_len(self.entries@);
        }
        let mut r: Vec<(String, Vec<u8>)> = Vec::new();
        let mut i: usize = 0;
        while i < self.entries.len()
            invariant
                self.wf(),
                i <= self.entries@.len(),
                r@.len() == i,
                forall|j: int| 0 <= j < i ==> #[trigger] r@[j].0@ == key_at(self.entries@, j) && r@[j].1@ == self.entries@[j].1@,
            decreases self.entries@.len() - i,
        {
            let key = self.entries[i].0.clone();
            let value = self.entries[i].1.clone();
            assert(value@ =~= self.entries@[i as int].1@);
            r.push((key, value));
            i = i + 1;
        }
        assert forall|j: int| 0 <= j < r@.len() implies self@.contains_key(#[trigger] r@[j].0@) && self@[r@[j].0@] == r@[j].1@ by {
            lemma_map_of_at(self.entries@, j);
        }
        assert forall|k: Seq<char>| self@.contains_key(k) implies exists|i: int| 0 <= i < r@.len() && #[trigger] r@[i].0@ == k by {
            let a = choose|a: int| 0 <= a < self.entries@.len() && key_at(self.entries@, a) == k;
            assert(r@[a].0@ == k);
        }
        r
    }

    /// The step ids that have saved state.
    pub fn keys(&self) -> (r: Vec<String>)
        requires
            self.wf(),
        ensures
            r@.len() == self@.len(),
            forall|i: int| 0 <= i < r@.len() ==> self@.contains_key(#[trigger] r@[i]@),
            forall|k: Seq<char>| self@.contains_key(k) ==> exists|i: int| 0 <= i < r@.len() && #[trigger] r@[i]@ == k,
            forall|i: int, j: int| 0 <= i < r@.len() && 0 <= j < r@.len() && i != j ==> r@[i]@ != r@[j]@,
    {
        proof {
            lemma_map_of_len(self.entries@);
        }
        let mut r: Vec<String> = Vec::new();
        let mut i: usize = 0;
        while i < self.entries.len()
            invariant
                i <= self.entries@.len(),
                r@.len() == i,
                forall|j: int| 0 <= j < i ==> #[trigger] r@[j]@ == key_at(self.entries@, j),
            decreases self.entries@.len() - i,
        {
            r.push(self.entries[i].0.clone());
            i = i + 1;
        }
        assert forall|j: int| 0 <= j < r@.len() implies self@.contains_key(#[trigger] r@[j]@) by {
            lemma_map_of_at(self.entries@, j);
        }
        assert forall|k: Seq<char>| self@.contains_key(k) implies exists|i: int| 0 <= i < r@.len() && #[trigger] r@[i]@ == k by {
            let a = choose|a: int| 0 <= a < self.entries@.len() && key_at(self.entries@, a) == k;
            assert(r@[a]@ == k);
        }
        r
    }
}

} // verus!
