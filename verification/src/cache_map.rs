//! The concurrent map that backs each hash cache, seen through its contents.
//!
//! Every cache maps a byte key to a 32-byte hash value. Verus sees the map
//! only through `cache_entries`, the key-value pairs it holds; the wrappers
//! below state what each `DashMap` method the caches use does to them.

use dashmap::DashMap;
use std::collections::hash_map::RandomState;
use vstd::prelude::*;

verus! {

/// A hash value: the 32-byte big-endian encoding of a field element.
pub type FeltBytes = [u8; 32];

/// The map type behind every hash cache.
pub type CacheMap = DashMap<Vec<u8>, FeltBytes, RandomState>;

#[verifier::external_type_specification]
#[verifier::external_body]
#[verifier::reject_recursive_types(K)]
#[verifier::reject_recursive_types(V)]
#[verifier::reject_recursive_types(S)]
pub struct ExDashMap<K, V, S>(DashMap<K, V, S>);

/// The key-value pairs that a cache map holds, keys taken by their bytes.
/// It does not depend on the map's hasher or on how entries are spread over
/// its shards.
pub uninterp spec fn cache_entries(m: DashMap<Vec<u8>, FeltBytes, RandomState>) -> Map<Seq<u8>, FeltBytes>;

/// The contents of a map that holds nothing.
pub open spec fn no_entries() -> Map<Seq<u8>, FeltBytes> {
    Map::empty()
}

/// `dashmap::DashMap::new`: the new map holds no entries.
#[verifier::external_body]
pub(crate) fn cache_map_new() -> (map: CacheMap)
    ensures
        cache_entries(map) == no_entries(),
{
    DashMap::new()
}

/// `dashmap::DashMap::len`: the number of key-value pairs the map holds
/// (the sum of the lengths of its shards; each key lives in the one shard
/// its hash selects).
#[verifier::external_body]
pub(crate) fn cache_map_len(map: &CacheMap) -> (len: usize)
    ensures
        len == cache_entries(*map).len(),
{
    map.len()
}

/// `dashmap::DashMap::clear`: afterwards the map holds no entries. The method
/// takes `&self`; the wrapper takes the map mutably so that the change is seen.
#[verifier::external_body]
pub(crate) fn cache_map_clear(map: &mut CacheMap)
    ensures
        cache_entries(*final(map)) == no_entries(),
{
    map.clear()
}

/// `dashmap::DashMap::get`: the value stored under `key` (looked up through
/// `Vec<u8>: Borrow<[u8]>`), copied out of the read guard that the map hands
/// back, or `None` where the key is absent. The guard is dropped before the
/// wrapper returns, so no later call on the map can wait on it.
#[verifier::external_body]
pub(crate) fn cache_map_get(map: &CacheMap, key: &[u8]) -> (value: Option<FeltBytes>)
    ensures
        value == (if cache_entries(*map).contains_key(key@) {
            Some(cache_entries(*map)[key@])
        } else {
            None::<FeltBytes>
        }),
{
    map.get(key).map(|entry| *entry.value())
}

/// `dashmap::DashMap::insert`: afterwards `key` maps to `value` and every
/// other entry is as it was. The method takes `&self`; the wrapper takes the
/// map mutably so that the change is seen. The value it replaces, which the
/// method returns, is dropped.
#[verifier::external_body]
pub(crate) fn cache_map_insert(map: &mut CacheMap, key: Vec<u8>, value: FeltBytes)
    ensures
        cache_entries(*final(map)) == cache_entries(*old(map)).insert(key@, value),
{
    map.insert(key, value);
}

} // verus!
