//! The object dictionary: a node's typed variables, addressed by a 16-bit index
//! and an 8-bit sub-index, and walked in ascending order of (index, sub-index).

use vstd::prelude::*;
use crate::eds::{DataValue, Var, VarView};
use crate::sorted_map::{Slot, SortedMap};

verus! {

/// The contents of an object dictionary.
pub type Entries = Map<(u16, u8), VarView>;

/// The key under which the entry (`index`, `sub_index`) is kept: ascending keys
/// are ascending (index, sub-index) pairs.
pub open spec fn od_key(index: u16, sub_index: u8) -> u64 {
    (index as int * 256 + sub_index as int) as u64
}

/// The value of the entry (`index`, `sub_index`), if there is one.
pub open spec fn value_at(entries: Entries, index: u16, sub_index: u8) -> Option<DataValue> {
    if entries.contains_key((index, sub_index)) {
        Some(entries[(index, sub_index)].value)
    } else {
        None
    }
}

/// Whether `value` may be written to the entry (`index`, `sub_index`): the entry
/// exists and holds a value of the same tag.
pub open spec fn accepts(entries: Entries, index: u16, sub_index: u8, value: DataValue) -> bool {
    entries.contains_key((index, sub_index)) && entries[(index, sub_index)].value.tag()
        == value.tag()
}

/// The contents after `value` was offered to the entry (`index`, `sub_index`):
/// written where the entry accepts it, refused otherwise.
pub open spec fn after_write(entries: Entries, index: u16, sub_index: u8, value: DataValue) -> Entries {
    if accepts(entries, index, sub_index, value) {
        entries.insert((index, sub_index), entries[(index, sub_index)].with_value(value))
    } else {
        entries
    }
}

/// `after` has the entries of `before`, each with the tag, name, access type and
/// mapping flag it had: at most values differ.
pub open spec fn same_layout(before: Entries, after: Entries) -> bool {
    &&& after.dom() == before.dom()
    &&& forall|k: (u16, u8)| #[trigger]
        before.contains_key(k) ==> {
            &&& after[k].value.tag() == before[k].value.tag()
            &&& after[k] == before[k].with_value(after[k].value)
        }
}

/// The object dictionary of one node.
#[derive(Debug)]
pub struct ObjectDictionary {
    entries: SortedMap<Var>,
}

impl ObjectDictionary {
    /// Every key stands for one (index, sub-index) pair.
    #[verifier::type_invariant]
    pub closed spec fn wf(&self) -> bool {
        &&& self.entries.wf()
        &&& forall|i: int|
            0 <= i < self.entries.keys().len() ==> #[trigger] self.entries.keys()[i] < 0x100_0000
    }

    /// The entries of this dictionary.
    pub closed spec fn view(&self) -> Entries {
        Map::new(
            |k: (u16, u8)| self.entries@.contains_key(od_key(k.0, k.1)),
            |k: (u16, u8)| self.entries@[od_key(k.0, k.1)]@,
        )
    }

    /// The (index, sub-index) pairs of this dictionary in ascending order.
    pub closed spec fn keys(&self) -> Seq<(u16, u8)> {
        Seq::new(
            self.entries.keys().len(),
            |i: int| ((self.entries.keys()[i] / 256) as u16, (self.entries.keys()[i] % 256) as u8),
        )
    }

    /// Pairs are listed in ascending order of index, then of sub-index, each once,
    /// and they are the pairs that have an entry.
    pub proof fn lemma_keys(&self)
        requires
            self.wf(),
        ensures
            forall|i: int, j: int|
                0 <= i < j < self.keys().len() ==> {
                    ||| (#[trigger] self.keys()[i]).0 < (#[trigger] self.keys()[j]).0
                    ||| self.keys()[i].0 == self.keys()[j].0 && self.keys()[i].1 < self.keys()[j].1
                },
            forall|i: int| 0 <= i < self.keys().len() ==> self@.contains_key(#[trigger] self.keys()[i]),
            forall|k: (u16, u8)| self@.contains_key(k) ==> #[trigger] self.keys().contains(k),
            self@.dom().finite(),
    {
        self.entries.lemma_wf();
        let raw = self.entries.keys();
        assert forall|k: (u16, u8)| self@.contains_key(k) implies #[trigger] self.keys().contains(
            k,
        ) by {
            let key = od_key(k.0, k.1);
            let i = raw.index_of(key);
            assert(self.keys()[i] == k);
        }
        assert(self@.dom() =~= self.keys().to_set());
    }

    /// An empty dictionary.
    pub fn new() -> (od: Self)
        ensures
            od.wf(),
            od@ == Entries::empty(),
    {
        let entries: SortedMap<Var> = SortedMap::new();
        let od = ObjectDictionary { entries };
        od
    }

    /// The number of entries.
    pub fn len(&self) -> (n: usize)
        ensures
            n == self.keys().len(),
    {
        self.entries.len()
    }

    /// The pair at position `i` of the ascending order.
    pub fn key_at(&self, i: usize) -> (key: (u16, u8))
        requires
            i < self.keys().len(),
        ensures
            key == self.keys()[i as int],
            self@.contains_key(key),
    {
        proof {
            use_type_invariant(self);
            self.lemma_keys();
        }
        let raw: u64 = self.entries.key_at(i);
        ((raw / 256) as u16, (raw % 256) as u8)
    }

    /// The entry (`index`, `sub_index`).
    pub fn get(&self, index: u16, sub_index: u8) -> (entry: Option<&Var>)
        ensures
            match entry {
                Some(var) => self@.contains_key((index, sub_index)) && var@ == self@[(
                    index,
                    sub_index,
                )],
                None => !self@.contains_key((index, sub_index)),
            },
    {
        self.entries.get(index as u64 * 256 + sub_index as u64)
    }

    /// The value of the entry (`index`, `sub_index`).
    pub fn get_value(&self, index: u16, sub_index: u8) -> (value: Option<DataValue>)
        ensures
            value == value_at(self@, index, sub_index),
    {
        match self.get(index, sub_index) {
            Some(var) => Some(var.value),
            None => None,
        }
    }

    /// Seeds the entry (`index`, `sub_index`) with `var`, replacing what was there.
    pub fn insert(&mut self, index: u16, sub_index: u8, var: Var)
        ensures
            final(self).wf(),
            final(self)@ == old(self)@.insert((index, sub_index), var@),
    {
        let mut taken = ObjectDictionary::new();
        core::mem::swap(self, &mut taken);
        proof {
            use_type_invariant(&taken);
        }
        let ghost before = taken;
        let ObjectDictionary { mut entries } = taken;
        let key: u64 = index as u64 * 256 + sub_index as u64;
        entries.insert(key, var);
        proof {
            entries.lemma_wf();
            before.entries.lemma_wf();
            assert forall|i: int| 0 <= i < entries.keys().len() implies #[trigger] entries.keys()[i]
                < 0x100_0000 by {
                let k = entries.keys()[i];
                assert(entries@.contains_key(k));
                if k != key {
                    let j = before.entries.keys().index_of(k);
                    assert(before.entries.keys()[j] == k);
                }
            }
        }
        let after = ObjectDictionary { entries };
        proof {
            assert(after@ =~= before@.insert((index, sub_index), var@)) by {
                assert forall|k: (u16, u8)| k != (index, sub_index) implies od_key(k.0, k.1)
                    != key by {}
            }
        }
        *self = after;
    }

    /// Offers `value` to the entry (`index`, `sub_index`). It is written where the
    /// entry exists and holds a value of the same tag, and refused otherwise.
    /// Returns whether it was written.
    pub fn mutate(&mut self, index: u16, sub_index: u8, value: DataValue) -> (written: bool)
        ensures
            final(self).wf(),
            written == accepts(old(self)@, index, sub_index, value),
            final(self)@ == after_write(old(self)@, index, sub_index, value),
            same_layout(old(self)@, final(self)@),
    {
        proof {
            use_type_invariant(&*self);
            self.entries.lemma_wf();
        }
        let key: u64 = index as u64 * 256 + sub_index as u64;
        let slot = self.entries.search(key);
        match slot {
            Slot::Found(i) => {
                if self.entries.value_at(i).value.data_type() != value.data_type() {
                    return false;
                }
                let mut taken = ObjectDictionary::new();
                core::mem::swap(self, &mut taken);
                let ghost before = taken;
                let ObjectDictionary { mut entries } = taken;
                let blank = Var {
                    parameter_name: String::new(),
                    access_type: String::new(),
                    value,
                    pdo_mapping: false,
                };
                let mut var = entries.replace_at(i, blank);
                var.value = value;
                let _ = entries.replace_at(i, var);
                let after = ObjectDictionary { entries };
                proof {
                    assert(after@ =~= after_write(before@, index, sub_index, value)) by {
                        assert forall|k: (u16, u8)| k != (index, sub_index) implies od_key(k.0, k.1)
                            != key by {}
                    }
                }
                *self = after;
                true
            },
            Slot::Vacant(_) => false,
        }
    }
}

} // verus!
