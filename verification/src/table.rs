//! A keyed table: rows found by a 256-bit key, kept in the order of insertion.
//!
//! The rows and their keys live in two vectors; a hash index leads from each
//! key to its row. The table's view is the map from keys to rows, and every
//! method states what it does to that map and to the order of the keys.

use vstd::prelude::*;
use crate::index::{id_index_entries, id_index_get, id_index_insert, id_index_new, id_index_remove, IdIndex};
use crate::num::U256;

verus! {

/// Rows of type `V`, each under its own 256-bit key.
pub struct Table<V> {
    index: IdIndex,
    keys: Vec<U256>,
    rows: Vec<V>,
}

/// A sequence after the element at `i` was replaced by the last one and the
/// last place dropped.
pub open spec fn swap_removed<T>(s: Seq<T>, i: int) -> Seq<T> {
    s.update(i, s.last()).drop_last()
}

impl<V> Table<V> {
    /// The index leads from every key to its row and back.
    pub closed spec fn wf(&self) -> bool {
        let entries = id_index_entries(self.index);
        &&& self.keys@.len() == self.rows@.len()
        &&& forall|i: int|
            0 <= i < self.keys@.len() ==> entries.contains_key(#[trigger] self.keys@[i])
                && entries[self.keys@[i]] == i
        &&& forall|k: U256| #[trigger]
            entries.contains_key(k) ==> entries[k] < self.keys@.len() && self.keys@[entries[k] as int]
                == k
    }

    /// The rows by key.
    pub closed spec fn entries(&self) -> Map<U256, V> {
        Map::new(
            |k: U256| id_index_entries(self.index).contains_key(k),
            |k: U256| self.rows@[id_index_entries(self.index)[k] as int],
        )
    }

    /// The keys in the order in which the rows stand.
    pub closed spec fn order(&self) -> Seq<U256> {
        self.keys@
    }

    /// The order lists every key of the table exactly once, and is no longer
    /// than a vector can be.
    pub proof fn lemma_order(&self)
        requires
            self.wf(),
        ensures
            self.order().no_duplicates(),
            forall|i: int|
                0 <= i < self.order().len() ==> self.entries().contains_key(#[trigger] self.order()[i]),
            forall|k: U256| #[trigger]
                self.entries().contains_key(k) ==> self.order().contains(k),
            self.entries().dom().finite(),
            self.entries().dom().len() == self.order().len(),
            self.order().len() <= usize::MAX,
    {
        vstd::std_specs::vec::axiom_spec_len(&self.keys);
        let entries = id_index_entries(self.index);
        assert forall|i: int, j: int|
            0 <= i < self.keys@.len() && 0 <= j < self.keys@.len() && i != j implies self.keys@[i]
            != self.keys@[j] by {
            assert(entries[self.keys@[i]] == i);
            assert(entries[self.keys@[j]] == j);
        }
        assert forall|k: U256| #[trigger] self.entries().contains_key(k) implies self.order().contains(
            k,
        ) by {
            assert(entries.contains_key(k));
            assert(self.keys@[entries[k] as int] == k);
        }
        assert(self.keys@.to_set() =~= self.entries().dom()) by {
            assert forall|k: U256| self.keys@.to_set().contains(k) implies self.entries().dom().contains(
                k,
            ) by {
                let i = choose|i: int| 0 <= i < self.keys@.len() && self.keys@[i] == k;
                assert(entries.contains_key(self.keys@[i]));
            }
            assert forall|k: U256| self.entries().dom().contains(k) implies self.keys@.to_set().contains(
                k,
            ) by {
                assert(self.entries().contains_key(k));
                assert(self.order().contains(k));
            }
        }
        self.keys@.unique_seq_to_set();
        vstd::seq_lib::seq_to_set_is_finite(self.keys@);
    }

    /// An empty table.
    pub fn new() -> (table: Table<V>)
        ensures
            table.wf(),
            table.entries() == Map::<U256, V>::empty(),
            table.order() == Seq::<U256>::empty(),
    {
        let table = Table { index: id_index_new(), keys: Vec::new(), rows: Vec::new() };
        assert(table.entries() =~= Map::<U256, V>::empty());
        table
    }

    /// The number of rows.
    pub fn len(&self) -> (n: usize)
        requires
            self.wf(),
        ensures
            n == self.order().len(),
    {
        self.keys.len()
    }

    /// Whether the table has a row under `key`.
    pub fn contains_key(&self, key: &U256) -> (found: bool)
        requires
            self.wf(),
        ensures
            found == self.entries().contains_key(*key),
    {
        id_index_get(&self.index, key).is_some()
    }

    /// The row under `key`, if there is one.
    pub fn get(&self, key: &U256) -> (row: Option<&V>)
        requires
            self.wf(),
        ensures
            self.entries().contains_key(*key) ==> row == Some(&self.entries()[*key]),
            !self.entries().contains_key(*key) ==> row.is_none(),
    {
        match id_index_get(&self.index, key) {
            Some(i) => Some(&self.rows[i]),
            None => None,
        }
    }

    /// The key of the row at place `i`.
    pub fn key_at(&self, i: usize) -> (key: U256)
        requires
            self.wf(),
            i < self.order().len(),
        ensures
            key == self.order()[i as int],
    {
        self.keys[i]
    }

    /// The row at place `i`.
    pub fn row_at(&self, i: usize) -> (row: &V)
        requires
            self.wf(),
            i < self.order().len(),
        ensures
            self.entries().contains_key(self.order()[i as int]),
            *row == self.entries()[self.order()[i as int]],
    {
        &self.rows[i]
    }

    /// Puts `value` under `key`. A row that was there is replaced and keeps
    /// its place; a new row goes to the end.
    pub fn insert(&mut self, key: U256, value: V)
        requires
            old(self).wf(),
        ensures
            final(self).wf(),
            final(self).entries() == old(self).entries().insert(key, value),
            old(self).entries().contains_key(key) ==> final(self).order() == old(self).order(),
            !old(self).entries().contains_key(key) ==> final(self).order() == old(self).order().push(
                key,
            ),
    {
        match id_index_get(&self.index, &key) {
            Some(i) => {
                self.rows.set(i, value);
            },
            None => {
                let n = self.keys.len();
                self.keys.push(key);
                self.rows.push(value);
                id_index_insert(&mut self.index, &key, n);
            },
        }
        assert(self.entries() =~= old(self).entries().insert(key, value));
    }

    /// Takes the row under `key` out, if there is one. The last row moves
    /// into the place that falls free.
    pub fn remove(&mut self, key: &U256) -> (row: Option<V>)
        requires
            old(self).wf(),
        ensures
            final(self).wf(),
            final(self).entries() == old(self).entries().remove(*key),
            old(self).entries().contains_key(*key) ==> row == Some(old(self).entries()[*key])
                && final(self).order() == swap_removed(
                old(self).order(),
                old(self).order().index_of(*key),
            ),
            !old(self).entries().contains_key(*key) ==> row.is_none() && final(self).order() == old(
                self,
            ).order(),
    {
        proof {
            old(self).lemma_order();
        }
        match id_index_get(&self.index, key) {
            Some(i) => {
                let last = self.keys.len() - 1;
                let moved = self.keys[last];
                assert(old(self).keys@.index_of(*key) == i as int) by {
                    old(self).keys@.index_of_first_ensures(*key);
                    let j = old(self).keys@.index_of(*key);
                    assert(old(self).keys@[j] == *key);
                    assert(old(self).keys@[i as int] == *key);
                }
                id_index_remove(&mut self.index, key);
                if i != last {
                    id_index_insert(&mut self.index, &moved, i);
                }
                let row = self.rows.swap_remove(i);
                let _ = self.keys.swap_remove(i);
                assert(self.wf()) by {
                    let entries = id_index_entries(self.index);
                    let before = id_index_entries(old(self).index);
                    assert forall|j: int| 0 <= j < self.keys@.len() implies entries.contains_key(
                        #[trigger] self.keys@[j],
                    ) && entries[self.keys@[j]] == j by {
                        if j == i as int {
                            assert(self.keys@[j] == moved);
                        } else {
                            assert(self.keys@[j] == old(self).keys@[j]);
                            assert(before[old(self).keys@[j]] == j);
                        }
                    }
                    assert forall|k: U256| #[trigger] entries.contains_key(k) implies entries[k]
                        < self.keys@.len() && self.keys@[entries[k] as int] == k by {
                        if i != last && k == moved {
                        } else {
                            assert(before.contains_key(k));
                            assert(k != *key);
                            assert(before[k] != i);
                            if before[k] == last {
                                assert(old(self).keys@[last as int] == k);
                            }
                        }
                    }
                }
                assert(self.entries() =~= old(self).entries().remove(*key)) by {
                    let entries = id_index_entries(self.index);
                    let before = id_index_entries(old(self).index);
                    assert forall|k: U256| self.entries().contains_key(k) implies self.entries()[k]
                        == old(self).entries()[k] by {
                        if i != last && k == moved {
                            assert(before[moved] == last);
                        } else {
                            assert(before.contains_key(k));
                            assert(before[k] != i);
                            if before[k] == last {
                                assert(old(self).keys@[last as int] == k);
                            }
                        }
                    }
                    assert forall|k: U256|
                        old(self).entries().remove(*key).contains_key(k) implies self.entries().contains_key(
                        k,
                    ) by {}
                }
                Some(row)
            },
            None => None,
        }
    }
}

} // verus!
