//! The concurrent hash map of the `dashmap` crate, as the membership cache
//! uses it.
//!
//! Nothing in this file is proved: each function states what the method of
//! `dashmap::DashMap` that it calls is documented to do, over the entries
//! that the map holds. A `DashMap` can be written through a shared
//! reference; the function that inserts asks for an exclusive one, so that
//! between two calls made here nobody else changes the entries.

use dashmap::DashMap;
use std::collections::hash_map::RandomState;
use vstd::prelude::*;

verus! {

/// `dashmap::DashMap`, declared so that it can stand in fields and
/// signatures. Nothing of its inside is visible to the verifier.
#[verifier::external_type_specification]
#[verifier::external_body]
#[verifier::reject_recursive_types(K)]
#[verifier::reject_recursive_types(V)]
#[verifier::reject_recursive_types(S)]
pub struct ExDashMap<K, V, S>(DashMap<K, V, S>);

/// What a result is stored under: the iteration threshold, and the bit
/// patterns of the two coordinates of the point.
pub type CacheKey = (usize, u64, u64);

/// The entries that a `DashMap` holds.
pub uninterp spec fn entries_of(map: DashMap<CacheKey, bool, RandomState>) -> Map<CacheKey, bool>;

/// The map without entries.
pub open spec fn no_entries() -> Map<CacheKey, bool> {
    Map::empty()
}

/// `DashMap::new`: a map without entries.
#[verifier::external_body]
pub(crate) fn shared_map_new() -> (created: DashMap<CacheKey, bool, RandomState>)
    ensures
        entries_of(created) == no_entries(),
{
    DashMap::new()
}

/// `DashMap::get`: the value stored under `key`, or `None` when the map has
/// no entry for it. The value is copied out of the reference that the method
/// hands back.
#[verifier::external_body]
pub(crate) fn shared_map_get(map: &DashMap<CacheKey, bool, RandomState>, key: CacheKey) -> (value:
    Option<bool>)
    ensures
        value == (if entries_of(*map).contains_key(key) {
            Some(entries_of(*map)[key])
        } else {
            None::<bool>
        }),
{
    map.get(&key).map(|entry| *entry.value())
}

/// `DashMap::insert`: stores `value` under `key`, in place of the value
/// that was stored there if there was one, and hands that value back.
#[verifier::external_body]
pub(crate) fn shared_map_insert(
    map: &mut DashMap<CacheKey, bool, RandomState>,
    key: CacheKey,
    value: bool,
) -> (previous: Option<bool>)
    ensures
        entries_of(*final(map)) == entries_of(*old(map)).insert(key, value),
        previous == (if entries_of(*old(map)).contains_key(key) {
            Some(entries_of(*old(map))[key])
        } else {
            None::<bool>
        }),
{
    map.insert(key, value)
}

} // verus!
