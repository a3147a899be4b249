//! An ordered map from `u64` keys to values, kept as two parallel vectors with
//! strictly ascending keys.
//!
//! Both the object dictionary and the motion trajectory are built on it: they
//! need lookups by key, the greatest key below a bound, and a walk in key order.

use vstd::prelude::*;

verus! {

/// `keys` is strictly ascending.
pub open spec fn strictly_ascending(keys: Seq<u64>) -> bool {
    forall|i: int, j: int| 0 <= i < j < keys.len() ==> keys[i] < keys[j]
}

/// Where a key stands, or would have to stand, in a sorted map.
#[derive(Clone, Copy, Debug, PartialEq, Eq, Structural)]
pub enum Slot {
    /// The key is present at this position.
    Found(usize),
    /// The key is absent; inserted at this position it keeps the order.
    Vacant(usize),
}

/// An ordered map from `u64` keys to values of `V`.
#[derive(Debug)]
pub struct SortedMap<V> {
    keys: Vec<u64>,
    values: Vec<V>,
}

impl<V> SortedMap<V> {
    /// The representation invariant: one value per key, keys strictly ascending.
    #[verifier::type_invariant]
    pub closed spec fn wf(&self) -> bool {
        &&& self.keys@.len() == self.values@.len()
        &&& strictly_ascending(self.keys@)
    }

    /// The keys in ascending order.
    pub closed spec fn keys(&self) -> Seq<u64> {
        self.keys@
    }

    /// The values in the order of their keys.
    pub closed spec fn values(&self) -> Seq<V> {
        self.values@
    }

    /// The map that this value stands for.
    pub open spec fn view(&self) -> Map<u64, V> {
        Map::new(
            |k: u64| self.keys().contains(k),
            |k: u64| self.values()[self.keys().index_of(k)],
        )
    }

    /// What `wf` says, over `keys` and `values`.
    pub proof fn lemma_wf(&self)
        requires
            self.wf(),
        ensures
            self.keys().len() == self.values().len(),
            strictly_ascending(self.keys()),
            self@.dom().finite(),
            self@.dom().len() == self.keys().len(),
            forall|i: int|
                0 <= i < self.keys().len() ==> #[trigger] self@.contains_key(self.keys()[i])
                    && self@[self.keys()[i]] == self.values()[i],
    {
        let keys = self.keys();
        keys.unique_seq_to_set();
    }

    /// An empty map.
    pub fn new() -> (map: Self)
        ensures
            map.wf(),
            map@ == Map::<u64, V>::empty(),
            map.keys() == Seq::<u64>::empty(),
    {
        let map = SortedMap { keys: Vec::new(), values: Vec::new() };
        map
    }

    /// The number of entries.
    pub fn len(&self) -> (n: usize)
        ensures
            n == self.keys().len(),
            n == self@.dom().len(),
    {
        proof {
            use_type_invariant(self);
            self.lemma_wf();
        }
        self.keys.len()
    }

    /// Binary search for `key`.
    pub fn search(&self, key: u64) -> (slot: Slot)
        ensures
            match slot {
                Slot::Found(i) => i < self.keys().len() && self.keys()[i as int] == key,
                Slot::Vacant(i) => {
                    &&& i <= self.keys().len()
                    &&& !self@.contains_key(key)
                    &&& forall|j: int| 0 <= j < i ==> self.keys()[j] < key
                    &&& forall|j: int| i <= j < self.keys().len() ==> key < self.keys()[j]
                },
            },
    {
        proof {
            use_type_invariant(self);
        }
        let mut lo: usize = 0;
        let mut hi: usize = self.keys.len();
        while lo < hi
            invariant
                lo <= hi <= self.keys@.len(),
                strictly_ascending(self.keys@),
                forall|j: int| 0 <= j < lo ==> self.keys@[j] < key,
                forall|j: int| hi <= j < self.keys@.len() ==> key < self.keys@[j],
            decreases hi - lo,
        {
            let mid: usize = lo + (hi - lo) / 2;
            let k: u64 = self.keys[mid];
            if k == key {
                return Slot::Found(mid);
            } else if k < key {
                lo = mid + 1;
            } else {
                hi = mid;
            }
        }
        Slot::Vacant(lo)
    }

    /// Whether `key` has an entry.
    pub fn contains_key(&self, key: u64) -> (present: bool)
        ensures
            present == self@.contains_key(key),
    {
        match self.search(key) {
            Slot::Found(_) => true,
            Slot::Vacant(_) => false,
        }
    }

    /// The value stored under `key`.
    pub fn get(&self, key: u64) -> (value: Option<&V>)
        ensures
            match value {
                Some(v) => self@.contains_key(key) && *v == self@[key],
                None => !self@.contains_key(key),
            },
    {
        proof {
            use_type_invariant(self);
            self.lemma_wf();
        }
        match self.search(key) {
            Slot::Found(i) => Some(&self.values[i]),
            Slot::Vacant(_) => None,
        }
    }

    /// The key at position `i` of the ascending order.
    pub fn key_at(&self, i: usize) -> (key: u64)
        requires
            i < self.keys().len(),
        ensures
            key == self.keys()[i as int],
            self@.contains_key(key),
    {
        proof {
            use_type_invariant(self);
            self.lemma_wf();
        }
        self.keys[i]
    }

    /// The value at position `i` of the ascending order.
    pub fn value_at(&self, i: usize) -> (value: &V)
        requires
            i < self.keys().len(),
        ensures
            *value == self.values()[i as int],
            *value == self@[self.keys()[i as int]],
    {
        proof {
            use_type_invariant(self);
            self.lemma_wf();
        }
        &self.values[i]
    }

    /// Stores `value` under `key`, replacing what was there.
    pub fn insert(&mut self, key: u64, value: V)
        ensures
            final(self).wf(),
            final(self)@ == old(self)@.insert(key, value),
    {
        let slot = self.search(key);
        let mut taken = SortedMap { keys: Vec::new(), values: Vec::new() };
        core::mem::swap(self, &mut taken);
        proof {
            use_type_invariant(&taken);
            taken.lemma_wf();
        }
        let ghost before = taken;
        let SortedMap { mut keys, mut values } = taken;
        match slot {
            Slot::Found(i) => {
                values.set(i, value);
                let after = SortedMap { keys, values };
                proof {
                    after.lemma_wf();
                }
                *self = after;
            },
            Slot::Vacant(i) => {
                keys.insert(i, key);
                values.insert(i, value);
                proof {
                    assert forall|a: int, b: int| 0 <= a < b < keys@.len() implies keys@[a]
                        < keys@[b] by {
                    }
                }
                let after = SortedMap { keys, values };
                proof {
                    let keys = after.keys@;
                    after.lemma_wf();
                    assert(after@ =~= before@.insert(key, value)) by {
                        assert forall|k: u64| after@.contains_key(k) == before@.insert(
                            key,
                            value,
                        ).contains_key(k) by {
                            if before@.contains_key(k) {
                                let j = before.keys@.index_of(k);
                                if j < i {
                                    assert(keys[j] == k);
                                } else {
                                    assert(keys[j + 1] == k);
                                }
                            }
                            if k == key {
                                assert(keys[i as int] == k);
                            }
                        }
                    }
                }
                *self = after;
            },
        }
    }

    /// Puts `value` at position `i` of the ascending order and hands back what
    /// stood there.
    pub fn replace_at(&mut self, i: usize, value: V) -> (previous: V)
        requires
            i < old(self).keys().len(),
        ensures
            final(self).wf(),
            previous == old(self).values()[i as int],
            final(self).keys() == old(self).keys(),
            final(self).values() == old(self).values().update(i as int, value),
            final(self)@ == old(self)@.insert(old(self).keys()[i as int], value),
    {
        let mut taken = SortedMap { keys: Vec::new(), values: Vec::new() };
        core::mem::swap(self, &mut taken);
        proof {
            use_type_invariant(&taken);
            taken.lemma_wf();
        }
        let ghost before = taken;
        let SortedMap { keys, mut values } = taken;
        values.push(value);
        let previous = values.swap_remove(i);
        let after = SortedMap { keys, values };
        proof {
            after.lemma_wf();
            let key = before.keys@[i as int];
            assert(after@ =~= before@.insert(key, value)) by {
                assert forall|k: u64| after@.contains_key(k) implies #[trigger] after@[k]
                    == before@.insert(key, value)[k] by {
                    let j = after.keys@.index_of(k);
                    assert(0 <= j < after.keys@.len() && after.keys@[j] == k);
                }
            }
        }
        *self = after;
        previous
    }

    /// The position of the greatest key that is at most `bound`.
    pub fn floor(&self, bound: u64) -> (at: Option<usize>)
        ensures
            match at {
                Some(i) => {
                    &&& i < self.keys().len()
                    &&& self.keys()[i as int] <= bound
                    &&& forall|j: int| i < j < self.keys().len() ==> bound < self.keys()[j]
                },
                None => forall|j: int| 0 <= j < self.keys().len() ==> bound < self.keys()[j],
            },
    {
        match self.search(bound) {
            Slot::Found(i) => {
                proof {
                    use_type_invariant(self);
                }
                Some(i)
            },
            Slot::Vacant(i) => if i == 0 {
                None
            } else {
                Some(i - 1)
            },
        }
    }
}

} // verus!
