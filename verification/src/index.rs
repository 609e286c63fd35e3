//! A hash index from 256-bit keys to row numbers.
//!
//! The index is the `HashMap` of `sails_rs::collections`, which is the
//! `HashMap` of `hashbrown`. The verifier does not look inside it: what it
//! holds is named by [`id_index_entries`], and the four functions below state
//! what each call does to that map. These statements are taken on trust
//! from that crate; everything built on the index is verified against them.
//!
//! The map is never walked: the order in which a hash map yields its entries
//! is no part of what is claimed here.

use vstd::prelude::*;
use sails_rs::collections::HashMap;
use crate::num::U256;

verus! {

/// A hash map from the words of a 256-bit key, least significant first, to a
/// row number. The outside type has an allocator among its parameters that
/// cannot be named from here, so the map is kept behind this struct, and
/// only the functions of this module reach it.
#[verifier::external_body]
pub struct IdIndex {
    inner: HashMap<[u64; 4], usize>,
}

/// The entries of an index: the row number stored under each key.
pub uninterp spec fn id_index_entries(index: IdIndex) -> Map<U256, usize>;

/// `HashMap::new` of `sails_rs::collections`. Trusted: the new map has no
/// entries.
#[verifier::external_body]
pub(crate) fn id_index_new() -> (index: IdIndex)
    ensures
        id_index_entries(index) =~= Map::empty(),
{
    IdIndex { inner: HashMap::new() }
}

/// `HashMap::get` of `sails_rs::collections`. Trusted: the result is the row
/// number stored under `key`, and `None` where the map has no such key.
#[verifier::external_body]
pub(crate) fn id_index_get(index: &IdIndex, key: &U256) -> (row: Option<usize>)
    ensures
        id_index_entries(*index).contains_key(*key) ==> row == Some(id_index_entries(*index)[*key]),
        !id_index_entries(*index).contains_key(*key) ==> row.is_none(),
{
    index.inner.get(&[key.w0, key.w1, key.w2, key.w3]).copied()
}

/// `HashMap::insert` of `sails_rs::collections`. Trusted: afterwards `key`
/// leads to `row`, whether or not the key was there before, and the other
/// entries are as they were.
#[verifier::external_body]
pub(crate) fn id_index_insert(index: &mut IdIndex, key: &U256, row: usize)
    ensures
        id_index_entries(*final(index)) == id_index_entries(*old(index)).insert(*key, row),
{
    index.inner.insert([key.w0, key.w1, key.w2, key.w3], row);
}

/// `HashMap::remove` of `sails_rs::collections`. Trusted: afterwards the map
/// has no entry for `key`, and the other entries are as they were.
#[verifier::external_body]
pub(crate) fn id_index_remove(index: &mut IdIndex, key: &U256)
    ensures
        id_index_entries(*final(index)) == id_index_entries(*old(index)).remove(*key),
{
    index.inner.remove(&[key.w0, key.w1, key.w2, key.w3]);
}

} // verus!
