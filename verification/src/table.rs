//! A table keyed by type identity that holds at most one entry per key.

use crate::erased::same_kind;
use std::any::TypeId;
use vstd::prelude::*;

verus! {

/// One key with its value.
struct Slot<V> {
    key: TypeId,
    value: V,
}

/// The entries, in the order in which their keys first came.
pub struct Table<V> {
    slots: Vec<Slot<V>>,
}

/// Whether no key occurs twice among `slots`.
spec fn keys_distinct<V>(slots: Seq<Slot<V>>) -> bool {
    forall|i: int, j: int| 0 <= i < j < slots.len() ==> slots[i].key != slots[j].key
}

/// Whether `key` occurs among `slots`.
spec fn has_key<V>(slots: Seq<Slot<V>>, key: TypeId) -> bool {
    exists|i: int| 0 <= i < slots.len() && slots[i].key == key
}

/// A position of `key` among `slots`, where it occurs.
spec fn position_of<V>(slots: Seq<Slot<V>>, key: TypeId) -> int {
    choose|i: int| 0 <= i < slots.len() && slots[i].key == key
}

/// Where no key occurs twice, the key at position `i` is found at `i` and
/// nowhere else.
proof fn lemma_position<V>(slots: Seq<Slot<V>>, i: int)
    requires
        keys_distinct(slots),
        0 <= i < slots.len(),
    ensures
        has_key(slots, slots[i].key),
        position_of(slots, slots[i].key) == i,
{
    let j = position_of(slots, slots[i].key);
    assert(0 <= j < slots.len() && slots[j].key == slots[i].key);
}

impl<V> Table<V> {
    /// No key occurs twice.
    #[verifier::type_invariant]
    spec fn inv(&self) -> bool {
        keys_distinct(self.slots@)
    }

    /// The table as a map from key to value.
    pub closed spec fn entries(&self) -> Map<TypeId, V> {
        Map::new(
            |key: TypeId| has_key(self.slots@, key),
            |key: TypeId| self.slots@[position_of(self.slots@, key)].value,
        )
    }

    /// A table without entries.
    pub fn new() -> (table: Self)
        ensures
            table.entries() == Map::<TypeId, V>::empty(),
    {
        let table = Table { slots: Vec::new() };
        assert(table.entries() =~= Map::<TypeId, V>::empty());
        table
    }

    /// Where `key` stands in the table, if it does.
    fn position(&self, key: &TypeId) -> (found: Option<usize>)
        ensures
            match found {
                Some(i) => i < self.slots@.len() && self.slots@[i as int].key == *key,
                None => !has_key(self.slots@, *key),
            },
    {
        let mut i: usize = 0;
        while i < self.slots.len()
            invariant
                i <= self.slots@.len(),
                forall|j: int| 0 <= j < i ==> self.slots@[j].key != *key,
            decreases self.slots@.len() - i,
        {
            if same_kind(&self.slots[i].key, key) {
                return Some(i);
            }
            i += 1;
        }
        None
    }

    /// The value of `key`, if it has one.
    pub fn get(&self, key: &TypeId) -> (value: Option<&V>)
        ensures
            match value {
                Some(held) => self.entries().contains_key(*key) && self.entries()[*key] == *held,
                None => !self.entries().contains_key(*key),
            },
    {
        match self.position(key) {
            Some(i) => {
                proof {
                    use_type_invariant(self);
                    lemma_position(self.slots@, i as int);
                }
                Some(&self.slots[i].value)
            },
            None => None,
        }
    }

    /// Gives `key` the value `value`, in place of the one it had.
    pub fn put(&mut self, key: TypeId, value: V)
        ensures
            final(self).entries() == old(self).entries().insert(key, value),
    {
        proof {
            use_type_invariant(&*self);
        }
        let found = self.position(&key);
        let ghost before = self.slots@;
        // The slots change outside the table, which never holds a key twice.
        let mut slots: Vec<Slot<V>> = Vec::new();
        std::mem::swap(&mut self.slots, &mut slots);
        match found {
            Some(i) => {
                slots.set(i, Slot { key, value });
            },
            None => {
                slots.push(Slot { key, value });
            },
        }
        assert(keys_distinct(slots@));
        std::mem::swap(&mut self.slots, &mut slots);
        proof {
            let after = self.slots@;
            let target = old(self).entries().insert(key, value);
            assert forall|k: TypeId| #[trigger]
                self.entries().contains_key(k) implies target.contains_key(k) && self.entries()[k]
                == target[k] by {
                let j = position_of(after, k);
                lemma_position(after, j);
                if k != key {
                    assert(before[j].key == k);
                    lemma_position(before, j);
                }
            }
            assert forall|k: TypeId| #[trigger]
                target.contains_key(k) implies self.entries().contains_key(k) by {
                if k != key {
                    let j = position_of(before, k);
                    assert(after[j].key == k);
                } else {
                    match found {
                        Some(i) => {
                            assert(after[i as int].key == key);
                        },
                        None => {
                            assert(after[after.len() - 1].key == key);
                        },
                    }
                }
            }
            assert(self.entries() =~= target);
        }
    }
}

impl<T> Table<Vec<T>> {
    /// A table of lists as a map from key to the sequence listed under it.
    pub closed spec fn lists(&self) -> Map<TypeId, Seq<T>> {
        Map::new(
            |key: TypeId| has_key(self.slots@, key),
            |key: TypeId| self.slots@[position_of(self.slots@, key)].value@,
        )
    }

    /// The keys that have a list are the keys that have an entry.
    pub proof fn lemma_lists_keys(&self)
        ensures
            self.lists().dom() == self.entries().dom(),
    {
        assert(self.lists().dom() =~= self.entries().dom());
    }

    /// What is listed under `key`: nothing where the key has no list.
    pub open spec fn listed(&self, key: TypeId) -> Seq<T> {
        if self.lists().contains_key(key) {
            self.lists()[key]
        } else {
            Seq::empty()
        }
    }

    /// The list of `key`, if it has one.
    pub fn list(&self, key: &TypeId) -> (list: Option<&Vec<T>>)
        ensures
            match list {
                Some(held) => self.lists().contains_key(*key) && self.lists()[*key] == held@,
                None => !self.lists().contains_key(*key),
            },
    {
        match self.position(key) {
            Some(i) => {
                proof {
                    use_type_invariant(self);
                    lemma_position(self.slots@, i as int);
                }
                Some(&self.slots[i].value)
            },
            None => None,
        }
    }

    /// Adds `item` at the end of the list of `key`, which is made first
    /// where the key has none.
    pub fn append(&mut self, key: TypeId, item: T)
        ensures
            final(self).lists() == old(self).lists().insert(key, old(self).listed(key).push(item)),
    {
        proof {
            use_type_invariant(&*self);
        }
        let found = self.position(&key);
        let ghost before = self.slots@;
        // The slots change outside the table, which never holds a key twice.
        let mut slots: Vec<Slot<Vec<T>>> = Vec::new();
        std::mem::swap(&mut self.slots, &mut slots);
        match found {
            Some(i) => {
                slots[i].value.push(item);
            },
            None => {
                let mut list: Vec<T> = Vec::new();
                list.push(item);
                slots.push(Slot { key, value: list });
            },
        }
        assert(keys_distinct(slots@));
        std::mem::swap(&mut self.slots, &mut slots);
        proof {
            let after = self.slots@;
            let target = old(self).lists().insert(key, old(self).listed(key).push(item));
            match found {
                Some(i) => {
                    lemma_position(before, i as int);
                    lemma_position(after, i as int);
                },
                None => {
                    lemma_position(after, after.len() - 1);
                    assert(after[after.len() - 1].value@ =~= Seq::<T>::empty().push(item));
                },
            }
            assert forall|k: TypeId| #[trigger]
                self.lists().contains_key(k) implies target.contains_key(k) && self.lists()[k]
                == target[k] by {
                let j = position_of(after, k);
                lemma_position(after, j);
                if k != key {
                    assert(before[j].key == k);
                    lemma_position(before, j);
                }
            }
            assert forall|k: TypeId| #[trigger]
                target.contains_key(k) implies self.lists().contains_key(k) by {
                if k != key {
                    let j = position_of(before, k);
                    assert(after[j].key == k);
                }
            }
            assert(self.lists() =~= target);
        }
    }
}

} // verus!
