//! One category's sub-map of the state store.

use vstd::prelude::*;

use crate::input::idents::InputMarker;
use crate::input::state::InputState;

verus! {

/// The states of one category's controls, keyed by the category's own
/// identifier type. A key exists only once written; a control that was never
/// written reads as the default state, so absence is never an error. Writes
/// overwrite: each identifier is filed at most once.
pub struct StateMap<K> {
    entries: Vec<(K, InputState)>,
}

impl<K: InputMarker> StateMap<K> {
    /// Each identifier is filed at most once.
    pub closed spec fn wf(self) -> bool {
        forall|i: int, j: int|
            0 <= i < j < self.entries@.len() ==> self.entries@[i].0 != self.entries@[j].0
    }

    /// What a scan of `s` finds for `key`: the value beside its first
    /// occurrence, or the default state where it never occurs.
    spec fn lookup_in(s: Seq<(K, InputState)>, key: K) -> InputState
        decreases s.len(),
    {
        if s.len() == 0 {
            InputState::unset()
        } else if s[0].0 == key {
            s[0].1
        } else {
            Self::lookup_in(s.subrange(1, s.len() as int), key)
        }
    }

    /// The state currently filed under `key`: the default state where `key`
    /// was never written.
    pub closed spec fn lookup(self, key: K) -> InputState {
        Self::lookup_in(self.entries@, key)
    }

    /// An empty sub-map: every control reads as the default state.
    pub fn new() -> (r: Self)
        ensures
            r.wf(),
            forall|k: K| r.lookup(k) == InputState::unset(),
    {
        StateMap { entries: Vec::new() }
    }

    proof fn lemma_lookup_at_first(s: Seq<(K, InputState)>, key: K, i: int)
        requires
            0 <= i < s.len(),
            s[i].0 == key,
            forall|j: int| 0 <= j < i ==> s[j].0 != key,
        ensures
            Self::lookup_in(s, key) == s[i].1,
        decreases i,
    {
        if i > 0 {
            Self::lemma_lookup_at_first(s.subrange(1, s.len() as int), key, i - 1);
        }
    }

    proof fn lemma_lookup_absent(s: Seq<(K, InputState)>, key: K)
        requires
            forall|j: int| 0 <= j < s.len() ==> s[j].0 != key,
        ensures
            Self::lookup_in(s, key) == InputState::unset(),
        decreases s.len(),
    {
        if s.len() > 0 {
            Self::lemma_lookup_absent(s.subrange(1, s.len() as int), key);
        }
    }

    proof fn lemma_lookup_update_other(s: Seq<(K, InputState)>, i: int, p: (K, InputState), k2: K)
        requires
            0 <= i < s.len(),
            s[i].0 != k2,
            p.0 != k2,
        ensures
            Self::lookup_in(s.update(i, p), k2) == Self::lookup_in(s, k2),
        decreases s.len(),
    {
        let t = s.update(i, p);
        if i == 0 {
            assert(t.subrange(1, t.len() as int) =~= s.subrange(1, s.len() as int));
        } else if s[0].0 != k2 {
            assert(t.subrange(1, t.len() as int) =~= s.subrange(1, s.len() as int).update(
                i - 1,
                p,
            ));
            Self::lemma_lookup_update_other(s.subrange(1, s.len() as int), i - 1, p, k2);
        }
    }

    proof fn lemma_lookup_push_other(s: Seq<(K, InputState)>, p: (K, InputState), k2: K)
        requires
            p.0 != k2,
        ensures
            Self::lookup_in(s.push(p), k2) == Self::lookup_in(s, k2),
        decreases s.len(),
    {
        let t = s.push(p);
        if s.len() == 0 {
            assert(t.subrange(1, t.len() as int) =~= Seq::<(K, InputState)>::empty());
            assert(Self::lookup_in(t.subrange(1, t.len() as int), k2) == InputState::unset());
        } else {
            assert(t.subrange(1, t.len() as int) =~= s.subrange(1, s.len() as int).push(p));
            Self::lemma_lookup_push_other(s.subrange(1, s.len() as int), p, k2);
        }
    }

    /// Reads the state filed under `key`.
    pub fn get(&self, key: K) -> (r: InputState)
        ensures
            r == self.lookup(key),
    {
        let mut i: usize = 0;
        while i < self.entries.len()
            invariant
                i <= self.entries@.len(),
                forall|j: int| 0 <= j < i ==> self.entries@[j].0 != key,
            decreases self.entries@.len() - i,
        {
            let hit = self.entries[i].0.eq_id(&key);
            if hit {
                proof {
                    Self::lemma_lookup_at_first(self.entries@, key, i as int);
                }
                return self.entries[i].1;
            }
            i += 1;
        }
        proof {
            Self::lemma_lookup_absent(self.entries@, key);
        }
        InputState::zero()
    }

    /// Overwrites the state filed under `key` and touches no other key.
    pub fn write(&mut self, key: K, state: InputState)
        ensures
            forall|k2: K|
                final(self).lookup(k2) == if k2 == key {
                    state
                } else {
                    old(self).lookup(k2)
                },
            old(self).wf() ==> final(self).wf(),
    {
        let ghost s0 = old(self).entries@;
        let mut i: usize = 0;
        while i < self.entries.len()
            invariant
                s0 == old(self).entries@,
                self.entries@ == s0,
                i <= s0.len(),
                forall|j: int| 0 <= j < i ==> s0[j].0 != key,
            decreases s0.len() - i,
        {
            let hit = self.entries[i].0.eq_id(&key);
            if hit {
                self.entries.set(i, (key, state));
                proof {
                    assert(forall|x: int|
                        0 <= x < self.entries@.len() ==> self.entries@[x].0 == s0[x].0);
                    assert forall|k2: K|
                        Self::lookup_in(self.entries@, k2) == if k2 == key {
                            state
                        } else {
                            Self::lookup_in(s0, k2)
                        } by {
                        if k2 == key {
                            Self::lemma_lookup_at_first(self.entries@, key, i as int);
                        } else {
                            Self::lemma_lookup_update_other(s0, i as int, (key, state), k2);
                        }
                    }
                }
                return ;
            }
            i += 1;
        }
        self.entries.push((key, state));
        proof {
            assert(forall|x: int| 0 <= x < s0.len() ==> self.entries@[x].0 == s0[x].0);
            assert(self.entries@[s0.len() as int].0 == key);
            assert forall|k2: K|
                Self::lookup_in(self.entries@, k2) == if k2 == key {
                    state
                } else {
                    Self::lookup_in(s0, k2)
                } by {
                if k2 == key {
                    Self::lemma_lookup_at_first(self.entries@, key, s0.len() as int);
                } else {
                    Self::lemma_lookup_push_other(s0, (key, state), k2);
                }
            }
        }
    }
}

} // verus!
