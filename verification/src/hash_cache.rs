//! Memoization of Starknet hashes.
//!
//! Four caches (Starknet Keccak over bytes, Pedersen over a pair of field
//! elements, Pedersen and Poseidon over arrays of field elements) share one
//! switch. While the switch is off, lookups miss without counting and stores
//! are dropped; turning it off empties every cache. A cache with capacity
//! zero never stores. A store into a full cache first empties it and counts
//! one capacity clear. Every lookup while the switch is on counts one hit or
//! one miss; the counters wrap around on overflow, as a relaxed atomic
//! `fetch_add` does.

use crate::cache_map::{
    cache_entries, cache_map_clear, cache_map_get, cache_map_insert, cache_map_len,
    cache_map_new, no_entries, CacheMap, FeltBytes,
};
use crate::felt_key::{
    felt_array_key, felt_pair_bytes, felt_pair_key, felt_words_bytes, lemma_felt_pair_key_injective,
};
use vstd::prelude::*;

verus! {

pub const DEFAULT_SN_KECCAK_CACHE_CAPACITY: usize = 8 * 1024;

pub const DEFAULT_PEDERSEN_PAIR_CACHE_CAPACITY: usize = 8 * 1024;

pub const DEFAULT_PEDERSEN_ARRAY_CACHE_CAPACITY: usize = 2 * 1024;

pub const DEFAULT_POSEIDON_ARRAY_CACHE_CAPACITY: usize = 2 * 1024;

/// Whether hashes are memoized, and how many entries each cache may hold.
/// A capacity of zero disables that individual cache.
#[derive(Clone, Copy, Debug, PartialEq, Eq, Structural)]
pub struct HashCacheConfig {
    pub enabled: bool,
    pub sn_keccak_capacity: usize,
    pub pedersen_pair_capacity: usize,
    pub pedersen_array_capacity: usize,
    pub poseidon_array_capacity: usize,
}

/// The configuration a process starts with: memoization off, default capacities.
pub open spec fn default_hash_cache_config() -> HashCacheConfig {
    HashCacheConfig {
        enabled: false,
        sn_keccak_capacity: DEFAULT_SN_KECCAK_CACHE_CAPACITY,
        pedersen_pair_capacity: DEFAULT_PEDERSEN_PAIR_CACHE_CAPACITY,
        pedersen_array_capacity: DEFAULT_PEDERSEN_ARRAY_CACHE_CAPACITY,
        poseidon_array_capacity: DEFAULT_POSEIDON_ARRAY_CACHE_CAPACITY,
    }
}

impl HashCacheConfig {
    /// The configured capacity of the cache of `kind`.
    pub open spec fn capacity_of(self, kind: HashCacheKind) -> usize {
        match kind {
            HashCacheKind::SnKeccak => self.sn_keccak_capacity,
            HashCacheKind::PedersenPair => self.pedersen_pair_capacity,
            HashCacheKind::PedersenArray => self.pedersen_array_capacity,
            HashCacheKind::PoseidonArray => self.poseidon_array_capacity,
        }
    }
}

impl Default for HashCacheConfig {
    fn default() -> (config: Self)
        ensures
            config == default_hash_cache_config(),
    {
        HashCacheConfig {
            enabled: false,
            sn_keccak_capacity: DEFAULT_SN_KECCAK_CACHE_CAPACITY,
            pedersen_pair_capacity: DEFAULT_PEDERSEN_PAIR_CACHE_CAPACITY,
            pedersen_array_capacity: DEFAULT_PEDERSEN_ARRAY_CACHE_CAPACITY,
            poseidon_array_capacity: DEFAULT_POSEIDON_ARRAY_CACHE_CAPACITY,
        }
    }
}

/// The four memoized hash functions.
#[derive(Clone, Copy, Debug, PartialEq, Eq, Structural)]
pub enum HashCacheKind {
    SnKeccak,
    PedersenPair,
    PedersenArray,
    PoseidonArray,
}

impl HashCacheKind {
    /// The name under which a cache's metrics are reported.
    pub open spec fn name(self) -> Seq<char> {
        match self {
            HashCacheKind::SnKeccak => "starknet_keccak"@,
            HashCacheKind::PedersenPair => "pedersen_pair"@,
            HashCacheKind::PedersenArray => "pedersen_array"@,
            HashCacheKind::PoseidonArray => "poseidon_array"@,
        }
    }

    pub fn as_str(self) -> (name: &'static str)
        ensures
            name@ == self.name(),
    {
        match self {
            HashCacheKind::SnKeccak => "starknet_keccak",
            HashCacheKind::PedersenPair => "pedersen_pair",
            HashCacheKind::PedersenArray => "pedersen_array",
            HashCacheKind::PoseidonArray => "poseidon_array",
        }
    }
}

/// A snapshot of one cache: its counters, how many entries it holds and how
/// many it may hold. `total_calls` is `hits + misses`, saturating at `u64::MAX`.
#[derive(Clone, Copy, Debug, PartialEq, Eq, Structural)]
pub struct HashCacheMetrics {
    pub kind: HashCacheKind,
    pub total_calls: u64,
    pub hits: u64,
    pub misses: u64,
    pub capacity_clears: u64,
    pub entries: usize,
    pub capacity: usize,
}

/// `x + y`, or `u64::MAX` where the sum does not fit.
pub open spec fn saturating_sum(x: u64, y: u64) -> u64 {
    if x + y > u64::MAX {
        u64::MAX
    } else {
        (x + y) as u64
    }
}

/// `x + 1`, wrapping to zero past `u64::MAX`.
pub open spec fn wrapping_inc(x: u64) -> u64 {
    if x == u64::MAX {
        0
    } else {
        (x + 1) as u64
    }
}

/// What one cache holds and has counted.
pub struct CacheView {
    pub entries: Map<Seq<u8>, FeltBytes>,
    pub capacity: usize,
    pub hits: u64,
    pub misses: u64,
    pub capacity_clears: u64,
}

impl CacheView {
    /// The cache holds finitely many entries, no more than its capacity, and
    /// none at all while memoization is off.
    pub open spec fn wf(self, enabled: bool) -> bool {
        &&& self.entries.dom().finite()
        &&& self.entries.len() <= self.capacity
        &&& !enabled ==> self.entries == no_entries()
    }

    /// What a lookup of `key` returns.
    pub open spec fn lookup(self, enabled: bool, key: Seq<u8>) -> Option<FeltBytes> {
        if enabled && self.entries.contains_key(key) {
            Some(self.entries[key])
        } else {
            None
        }
    }

    /// The cache after a lookup of `key`: one hit or one miss more while
    /// memoization is on, unchanged otherwise.
    pub open spec fn after_lookup(self, enabled: bool, key: Seq<u8>) -> CacheView {
        if !enabled {
            self
        } else if self.entries.contains_key(key) {
            CacheView { hits: wrapping_inc(self.hits), ..self }
        } else {
            CacheView { misses: wrapping_inc(self.misses), ..self }
        }
    }

    /// The cache after storing `value` under `key`.
    pub open spec fn after_store(self, enabled: bool, key: Seq<u8>, value: FeltBytes) -> CacheView {
        if !enabled || self.capacity == 0 {
            self
        } else if self.entries.len() >= self.capacity {
            CacheView {
                entries: no_entries().insert(key, value),
                capacity_clears: wrapping_inc(self.capacity_clears),
                ..self
            }
        } else {
            CacheView { entries: self.entries.insert(key, value), ..self }
        }
    }

    /// No counter of the cache is at `u64::MAX`, so the next count cannot wrap.
    pub open spec fn counters_below_max(self) -> bool {
        &&& self.hits < u64::MAX
        &&& self.misses < u64::MAX
        &&& self.capacity_clears < u64::MAX
    }

    /// The cache with no entries, counters and capacity kept.
    pub open spec fn emptied(self) -> CacheView {
        CacheView { entries: no_entries(), ..self }
    }

    /// The cache emptied and given a new capacity, counters kept.
    pub open spec fn reconfigured(self, capacity: usize) -> CacheView {
        CacheView { entries: no_entries(), capacity, ..self }
    }

    /// The snapshot that the cache reports under `kind`.
    pub open spec fn metrics(self, kind: HashCacheKind) -> HashCacheMetrics {
        HashCacheMetrics {
            kind,
            total_calls: saturating_sum(self.hits, self.misses),
            hits: self.hits,
            misses: self.misses,
            capacity_clears: self.capacity_clears,
            entries: self.entries.len() as usize,
            capacity: self.capacity,
        }
    }
}

/// One call that changes the caches: `configure_hash_cache`,
/// `set_hash_cache_enabled`, a lookup (`*_get`) or a store (`*_insert`) in
/// the cache of a kind under a key.
pub enum CacheOp {
    Configure(HashCacheConfig),
    Switch(bool),
    Lookup(HashCacheKind, Seq<u8>),
    Store(HashCacheKind, Seq<u8>, FeltBytes),
}

impl CacheOp {
    /// The call stores something under `key` in the cache of `kind`.
    pub open spec fn stores_key(self, kind: HashCacheKind, key: Seq<u8>) -> bool {
        self matches CacheOp::Store(k, stored, _) && k == kind && stored == key
    }

    /// The call may store something in the cache of `kind`.
    pub open spec fn stores_in(self, kind: HashCacheKind) -> bool {
        self matches CacheOp::Store(k, _, _) && k == kind
    }
}

/// What all four caches hold and have counted, and the switch they share.
pub struct HashCachesView {
    pub enabled: bool,
    pub sn_keccak: CacheView,
    pub pedersen_pair: CacheView,
    pub pedersen_array: CacheView,
    pub poseidon_array: CacheView,
}

impl HashCachesView {
    pub open spec fn cache(self, kind: HashCacheKind) -> CacheView {
        match kind {
            HashCacheKind::SnKeccak => self.sn_keccak,
            HashCacheKind::PedersenPair => self.pedersen_pair,
            HashCacheKind::PedersenArray => self.pedersen_array,
            HashCacheKind::PoseidonArray => self.poseidon_array,
        }
    }

    /// These caches with the cache of `kind` replaced by `c`.
    pub open spec fn with_cache(self, kind: HashCacheKind, c: CacheView) -> HashCachesView {
        match kind {
            HashCacheKind::SnKeccak => HashCachesView { sn_keccak: c, ..self },
            HashCacheKind::PedersenPair => HashCachesView { pedersen_pair: c, ..self },
            HashCacheKind::PedersenArray => HashCachesView { pedersen_array: c, ..self },
            HashCacheKind::PoseidonArray => HashCachesView { poseidon_array: c, ..self },
        }
    }

    pub open spec fn wf(self) -> bool {
        &&& self.sn_keccak.wf(self.enabled)
        &&& self.pedersen_pair.wf(self.enabled)
        &&& self.pedersen_array.wf(self.enabled)
        &&& self.poseidon_array.wf(self.enabled)
    }

    /// What a lookup of `key` in the cache of `kind` returns.
    pub open spec fn lookup_in(self, kind: HashCacheKind, key: Seq<u8>) -> Option<FeltBytes> {
        self.cache(kind).lookup(self.enabled, key)
    }

    /// The caches after a lookup of `key` in the cache of `kind`.
    pub open spec fn after_lookup_in(self, kind: HashCacheKind, key: Seq<u8>) -> HashCachesView {
        self.with_cache(kind, self.cache(kind).after_lookup(self.enabled, key))
    }

    /// The caches after storing `value` under `key` in the cache of `kind`.
    pub open spec fn after_store_in(
        self,
        kind: HashCacheKind,
        key: Seq<u8>,
        value: FeltBytes,
    ) -> HashCachesView {
        self.with_cache(kind, self.cache(kind).after_store(self.enabled, key, value))
    }

    /// The caches with every entry dropped, counters and capacities kept.
    pub open spec fn emptied(self) -> HashCachesView {
        HashCachesView {
            enabled: self.enabled,
            sn_keccak: self.sn_keccak.emptied(),
            pedersen_pair: self.pedersen_pair.emptied(),
            pedersen_array: self.pedersen_array.emptied(),
            poseidon_array: self.poseidon_array.emptied(),
        }
    }

    /// The caches after `configure_hash_cache(config)`: emptied, with the
    /// configured switch and capacities; the counters are kept.
    pub open spec fn configured(self, config: HashCacheConfig) -> HashCachesView {
        HashCachesView {
            enabled: config.enabled,
            sn_keccak: self.sn_keccak.reconfigured(config.sn_keccak_capacity),
            pedersen_pair: self.pedersen_pair.reconfigured(config.pedersen_pair_capacity),
            pedersen_array: self.pedersen_array.reconfigured(config.pedersen_array_capacity),
            poseidon_array: self.poseidon_array.reconfigured(config.poseidon_array_capacity),
        }
    }

    /// The caches after `set_hash_cache_enabled(enabled)`: turning the switch
    /// off also drops every entry.
    pub open spec fn switched(self, enabled: bool) -> HashCachesView {
        if enabled {
            HashCachesView { enabled: true, ..self }
        } else {
            HashCachesView { enabled: false, ..self.emptied() }
        }
    }

    /// The caches after one call.
    pub open spec fn step(self, op: CacheOp) -> HashCachesView {
        match op {
            CacheOp::Configure(config) => self.configured(config),
            CacheOp::Switch(enabled) => self.switched(enabled),
            CacheOp::Lookup(kind, key) => self.after_lookup_in(kind, key),
            CacheOp::Store(kind, key, value) => self.after_store_in(kind, key, value),
        }
    }

    /// The caches after the calls `ops`, in order.
    pub open spec fn run(self, ops: Seq<CacheOp>) -> HashCachesView
        decreases ops.len(),
    {
        if ops.len() == 0 {
            self
        } else {
            self.run(ops.drop_last()).step(ops.last())
        }
    }

    /// The caches of a freshly started process: memoization off, default
    /// capacities, no entries, every counter zero.
    pub open spec fn initial() -> HashCachesView {
        let empty = CacheView {
            entries: no_entries(),
            capacity: 0,
            hits: 0,
            misses: 0,
            capacity_clears: 0,
        };
        HashCachesView {
            enabled: false,
            sn_keccak: CacheView { capacity: DEFAULT_SN_KECCAK_CACHE_CAPACITY, ..empty },
            pedersen_pair: CacheView { capacity: DEFAULT_PEDERSEN_PAIR_CACHE_CAPACITY, ..empty },
            pedersen_array: CacheView { capacity: DEFAULT_PEDERSEN_ARRAY_CACHE_CAPACITY, ..empty },
            poseidon_array: CacheView { capacity: DEFAULT_POSEIDON_ARRAY_CACHE_CAPACITY, ..empty },
        }
    }
}

/// The hit, miss and capacity-clear counters of one cache.
struct CacheCounters {
    hits: u64,
    misses: u64,
    capacity_clears: u64,
}

impl CacheCounters {
    fn new() -> (counters: Self)
        ensures
            counters.hits == 0,
            counters.misses == 0,
            counters.capacity_clears == 0,
    {
        CacheCounters { hits: 0, misses: 0, capacity_clears: 0 }
    }
}

/// One hash cache: its map, its capacity and its counters.
pub struct HashCache {
    map: CacheMap,
    capacity: usize,
    counters: CacheCounters,
}

impl View for HashCache {
    type V = CacheView;

    closed spec fn view(&self) -> CacheView {
        CacheView {
            entries: cache_entries(self.map),
            capacity: self.capacity,
            hits: self.counters.hits,
            misses: self.counters.misses,
            capacity_clears: self.counters.capacity_clears,
        }
    }
}

impl HashCache {
    fn new(capacity: usize) -> (cache: Self)
        ensures
            cache@ == (CacheView {
                entries: no_entries(),
                capacity,
                hits: 0,
                misses: 0,
                capacity_clears: 0,
            }),
    {
        HashCache { map: cache_map_new(), capacity, counters: CacheCounters::new() }
    }
}

/// The four hash caches of a process and the switch they share.
pub struct HashCaches {
    enabled: bool,
    sn_keccak: HashCache,
    pedersen_pair: HashCache,
    pedersen_array: HashCache,
    poseidon_array: HashCache,
}

impl View for HashCaches {
    type V = HashCachesView;

    closed spec fn view(&self) -> HashCachesView {
        HashCachesView {
            enabled: self.enabled,
            sn_keccak: self.sn_keccak@,
            pedersen_pair: self.pedersen_pair@,
            pedersen_array: self.pedersen_array@,
            poseidon_array: self.poseidon_array@,
        }
    }
}

impl HashCaches {
    /// The caches of a freshly started process.
    pub fn new() -> (caches: Self)
        ensures
            caches@ == HashCachesView::initial(),
            caches@.wf(),
    {
        HashCaches {
            enabled: false,
            sn_keccak: HashCache::new(DEFAULT_SN_KECCAK_CACHE_CAPACITY),
            pedersen_pair: HashCache::new(DEFAULT_PEDERSEN_PAIR_CACHE_CAPACITY),
            pedersen_array: HashCache::new(DEFAULT_PEDERSEN_ARRAY_CACHE_CAPACITY),
            poseidon_array: HashCache::new(DEFAULT_POSEIDON_ARRAY_CACHE_CAPACITY),
        }
    }
}

/// Configures memoization: turns it off, empties every cache, sets the
/// capacities, then sets the switch as configured. Counters are kept.
pub fn configure_hash_cache(caches: &mut HashCaches, config: HashCacheConfig)
    ensures
        final(caches)@ == old(caches)@.configured(config),
        final(caches)@ == old(caches)@.step(CacheOp::Configure(config)),
        final(caches)@.wf(),
{
    caches.enabled = false;
    clear_caches(caches);
    caches.sn_keccak.capacity = config.sn_keccak_capacity;
    caches.pedersen_pair.capacity = config.pedersen_pair_capacity;
    caches.pedersen_array.capacity = config.pedersen_array_capacity;
    caches.poseidon_array.capacity = config.poseidon_array_capacity;
    caches.enabled = config.enabled;
}

/// Turns memoization on or off; turning it off empties every cache.
pub fn set_hash_cache_enabled(caches: &mut HashCaches, enabled: bool)
    ensures
        final(caches)@ == old(caches)@.switched(enabled),
        final(caches)@ == old(caches)@.step(CacheOp::Switch(enabled)),
        old(caches)@.wf() ==> final(caches)@.wf(),
{
    caches.enabled = enabled;
    if !enabled {
        clear_caches(caches);
    }
}

/// A snapshot of every cache, in the order Starknet Keccak, Pedersen pair,
/// Pedersen array, Poseidon array.
pub fn hash_cache_metrics(caches: &HashCaches) -> (metrics: [HashCacheMetrics; 4])
    ensures
        metrics@[0] == caches@.sn_keccak.metrics(HashCacheKind::SnKeccak),
        metrics@[1] == caches@.pedersen_pair.metrics(HashCacheKind::PedersenPair),
        metrics@[2] == caches@.pedersen_array.metrics(HashCacheKind::PedersenArray),
        metrics@[3] == caches@.poseidon_array.metrics(HashCacheKind::PoseidonArray),
{
    [
        snapshot(HashCacheKind::SnKeccak, &caches.sn_keccak),
        snapshot(HashCacheKind::PedersenPair, &caches.pedersen_pair),
        snapshot(HashCacheKind::PedersenArray, &caches.pedersen_array),
        snapshot(HashCacheKind::PoseidonArray, &caches.poseidon_array),
    ]
}

fn snapshot(kind: HashCacheKind, cache: &HashCache) -> (metrics: HashCacheMetrics)
    ensures
        metrics == cache@.metrics(kind),
{
    let hits = cache.counters.hits;
    let misses = cache.counters.misses;
    HashCacheMetrics {
        kind,
        total_calls: hits.saturating_add(misses),
        hits,
        misses,
        capacity_clears: cache.counters.capacity_clears,
        entries: cache_map_len(&cache.map),
        capacity: cache.capacity,
    }
}

fn clear_caches(caches: &mut HashCaches)
    ensures
        final(caches)@ == old(caches)@.emptied(),
{
    cache_map_clear(&mut caches.sn_keccak.map);
    cache_map_clear(&mut caches.pedersen_pair.map);
    cache_map_clear(&mut caches.pedersen_array.map);
    cache_map_clear(&mut caches.poseidon_array.map);
}

/// Whether memoization is on.
pub fn enabled(caches: &HashCaches) -> (on: bool)
    ensures
        on == caches@.enabled,
{
    caches.enabled
}

fn get(cache: &mut HashCache, enabled: bool, key: &[u8]) -> (value: Option<FeltBytes>)
    ensures
        value == old(cache)@.lookup(enabled, key@),
        final(cache)@ == old(cache)@.after_lookup(enabled, key@),
{
    if !enabled {
        return None;
    }
    match cache_map_get(&cache.map, key) {
        Some(value) => {
            cache.counters.hits = cache.counters.hits.wrapping_add(1);
            Some(value)
        },
        None => {
            cache.counters.misses = cache.counters.misses.wrapping_add(1);
            None
        },
    }
}

fn insert(cache: &mut HashCache, enabled: bool, key: Vec<u8>, value: FeltBytes)
    ensures
        final(cache)@ == old(cache)@.after_store(enabled, key@, value),
{
    if !enabled {
        return;
    }
    let capacity = cache.capacity;
    if capacity == 0 {
        return;
    }
    if cache_map_len(&cache.map) >= capacity {
        cache_map_clear(&mut cache.map);
        cache.counters.capacity_clears = cache.counters.capacity_clears.wrapping_add(1);
    }
    cache_map_insert(&mut cache.map, key, value);
}

/// The memoized Starknet Keccak hash of `data`, if any.
pub fn sn_keccak_get(caches: &mut HashCaches, data: &[u8]) -> (value: Option<FeltBytes>)
    ensures
        value == old(caches)@.lookup_in(HashCacheKind::SnKeccak, data@),
        final(caches)@ == old(caches)@.after_lookup_in(HashCacheKind::SnKeccak, data@),
        final(caches)@ == old(caches)@.step(CacheOp::Lookup(HashCacheKind::SnKeccak, data@)),
        old(caches)@.wf() ==> final(caches)@.wf(),
{
    let enabled = caches.enabled;
    get(&mut caches.sn_keccak, enabled, data)
}

/// Memoizes `value` as the Starknet Keccak hash of `data`.
pub fn sn_keccak_insert(caches: &mut HashCaches, data: &[u8], value: FeltBytes)
    ensures
        final(caches)@ == old(caches)@.after_store_in(HashCacheKind::SnKeccak, data@, value),
        final(caches)@ == old(caches)@.step(CacheOp::Store(HashCacheKind::SnKeccak, data@, value)),
        old(caches)@.wf() ==> final(caches)@.wf(),
{
    let enabled = caches.enabled;
    let key = vstd::slice::slice_to_vec(data);
    insert(&mut caches.sn_keccak, enabled, key, value);
    proof {
        if old(caches)@.wf() {
            lemma_after_store_wf(old(caches)@.sn_keccak, enabled, data@, value);
        }
    }
}

/// The memoized Pedersen hash of `(left, right)`, if any.
pub fn pedersen_pair_get(caches: &mut HashCaches, left: FeltBytes, right: FeltBytes) -> (value:
    Option<FeltBytes>)
    ensures
        value == old(caches)@.lookup_in(HashCacheKind::PedersenPair, felt_pair_bytes(left, right)),
        final(caches)@ == old(caches)@.after_lookup_in(
            HashCacheKind::PedersenPair,
            felt_pair_bytes(left, right),
        ),
        final(caches)@ == old(caches)@.step(CacheOp::Lookup(HashCacheKind::PedersenPair, felt_pair_bytes(left, right))),
        old(caches)@.wf() ==> final(caches)@.wf(),
{
    let enabled = caches.enabled;
    let key = felt_pair_key(&left, &right);
    get(&mut caches.pedersen_pair, enabled, key.as_slice())
}

/// Memoizes `value` as the Pedersen hash of `(left, right)`.
pub fn pedersen_pair_insert(
    caches: &mut HashCaches,
    left: FeltBytes,
    right: FeltBytes,
    value: FeltBytes,
)
    ensures
        final(caches)@ == old(caches)@.after_store_in(
            HashCacheKind::PedersenPair,
            felt_pair_bytes(left, right),
            value,
        ),
        final(caches)@ == old(caches)@.step(
            CacheOp::Store(HashCacheKind::PedersenPair, felt_pair_bytes(left, right), value),
        ),
        old(caches)@.wf() ==> final(caches)@.wf(),
{
    let enabled = caches.enabled;
    let key = felt_pair_key(&left, &right);
    insert(&mut caches.pedersen_pair, enabled, key, value);
    proof {
        if old(caches)@.wf() {
            lemma_after_store_wf(old(caches)@.pedersen_pair, enabled, felt_pair_bytes(left, right), value);
        }
    }
}

/// The memoized Pedersen hash of the array `values`, if any.
pub fn pedersen_array_get(caches: &mut HashCaches, values: &[FeltBytes]) -> (value: Option<
    FeltBytes,
>)
    ensures
        value == old(caches)@.lookup_in(HashCacheKind::PedersenArray, felt_words_bytes(values@)),
        final(caches)@ == old(caches)@.after_lookup_in(
            HashCacheKind::PedersenArray,
            felt_words_bytes(values@),
        ),
        final(caches)@ == old(caches)@.step(CacheOp::Lookup(HashCacheKind::PedersenArray, felt_words_bytes(values@))),
        old(caches)@.wf() ==> final(caches)@.wf(),
{
    let enabled = caches.enabled;
    let key = felt_array_key(values);
    get(&mut caches.pedersen_array, enabled, key.as_slice())
}

/// Memoizes `value` as the Pedersen hash of the array `values`.
pub fn pedersen_array_insert(caches: &mut HashCaches, values: &[FeltBytes], value: FeltBytes)
    ensures
        final(caches)@ == old(caches)@.after_store_in(
            HashCacheKind::PedersenArray,
            felt_words_bytes(values@),
            value,
        ),
        final(caches)@ == old(caches)@.step(
            CacheOp::Store(HashCacheKind::PedersenArray, felt_words_bytes(values@), value),
        ),
        old(caches)@.wf() ==> final(caches)@.wf(),
{
    let enabled = caches.enabled;
    let key = felt_array_key(values);
    insert(&mut caches.pedersen_array, enabled, key, value);
    proof {
        if old(caches)@.wf() {
            lemma_after_store_wf(old(caches)@.pedersen_array, enabled, felt_words_bytes(values@), value);
        }
    }
}

/// The memoized Poseidon hash of the array `values`, if any.
pub fn poseidon_array_get(caches: &mut HashCaches, values: &[FeltBytes]) -> (value: Option<
    FeltBytes,
>)
    ensures
        value == old(caches)@.lookup_in(HashCacheKind::PoseidonArray, felt_words_bytes(values@)),
        final(caches)@ == old(caches)@.after_lookup_in(
            HashCacheKind::PoseidonArray,
            felt_words_bytes(values@),
        ),
        final(caches)@ == old(caches)@.step(CacheOp::Lookup(HashCacheKind::PoseidonArray, felt_words_bytes(values@))),
        old(caches)@.wf() ==> final(caches)@.wf(),
{
    let enabled = caches.enabled;
    let key = felt_array_key(values);
    get(&mut caches.poseidon_array, enabled, key.as_slice())
}

/// Memoizes `value` as the Poseidon hash of the array `values`.
pub fn poseidon_array_insert(caches: &mut HashCaches, values: &[FeltBytes], value: FeltBytes)
    ensures
        final(caches)@ == old(caches)@.after_store_in(
            HashCacheKind::PoseidonArray,
            felt_words_bytes(values@),
            value,
        ),
        final(caches)@ == old(caches)@.step(
            CacheOp::Store(HashCacheKind::PoseidonArray, felt_words_bytes(values@), value),
        ),
        old(caches)@.wf() ==> final(caches)@.wf(),
{
    let enabled = caches.enabled;
    let key = felt_array_key(values);
    insert(&mut caches.poseidon_array, enabled, key, value);
    proof {
        if old(caches)@.wf() {
            lemma_after_store_wf(old(caches)@.poseidon_array, enabled, felt_words_bytes(values@), value);
        }
    }
}

/// A store keeps a cache within its capacity, and empty while memoization is off.
pub proof fn lemma_after_store_wf(c: CacheView, enabled: bool, key: Seq<u8>, value: FeltBytes)
    requires
        c.wf(enabled),
    ensures
        c.after_store(enabled, key, value).wf(enabled),
{
    if enabled && c.capacity > 0 {
        if c.entries.len() >= c.capacity {
            assert(no_entries().dom() =~= Set::<Seq<u8>>::empty());
            assert(no_entries().insert(key, value).dom() =~= Set::<Seq<u8>>::empty().insert(key));
        } else {
            assert(c.entries.insert(key, value).dom() =~= c.entries.dom().insert(key));
        }
    }
}

/// A hash stored while memoization is on, in a cache whose capacity is not
/// zero, is what the next lookup of the same key in that cache returns.
pub proof fn lemma_stored_hash_is_returned(
    s: HashCachesView,
    kind: HashCacheKind,
    key: Seq<u8>,
    value: FeltBytes,
)
    requires
        s.enabled,
        s.cache(kind).capacity > 0,
    ensures
        s.after_store_in(kind, key, value).lookup_in(kind, key) == Some(value),
{
}

/// While memoization is off, a lookup returns nothing and a lookup or a
/// store leaves every cache and counter as it was.
pub proof fn lemma_disabled_caches_are_bypassed(
    s: HashCachesView,
    kind: HashCacheKind,
    key: Seq<u8>,
    value: FeltBytes,
)
    requires
        !s.enabled,
    ensures
        s.lookup_in(kind, key) is None,
        s.after_lookup_in(kind, key) == s,
        s.after_store_in(kind, key, value) == s,
{
    assert(s.with_cache(kind, s.cache(kind)) == s);
}

/// A cache of capacity zero never stores.
pub proof fn lemma_zero_capacity_cache_never_stores(
    s: HashCachesView,
    kind: HashCacheKind,
    key: Seq<u8>,
    value: FeltBytes,
)
    requires
        s.cache(kind).capacity == 0,
    ensures
        s.after_store_in(kind, key, value) == s,
{
    assert(s.with_cache(kind, s.cache(kind)) == s);
}

/// A store into a full cache (while memoization is on and the capacity is
/// not zero) first drops every entry and counts one capacity clear, so the
/// cache then holds the stored entry alone.
pub proof fn lemma_full_cache_is_emptied_before_store(
    s: HashCachesView,
    kind: HashCacheKind,
    key: Seq<u8>,
    value: FeltBytes,
)
    requires
        s.enabled,
        0 < s.cache(kind).capacity <= s.cache(kind).entries.len(),
    ensures
        s.after_store_in(kind, key, value).cache(kind).entries == no_entries().insert(key, value),
        s.after_store_in(kind, key, value).cache(kind).entries.len() == 1,
        s.after_store_in(kind, key, value).cache(kind).capacity_clears == wrapping_inc(
            s.cache(kind).capacity_clears,
        ),
{
    assert(no_entries().insert(key, value).dom() =~= Set::<Seq<u8>>::empty().insert(key));
}

/// While memoization is on, every lookup counts exactly one hit (when it
/// finds the key) or one miss (when it does not), and changes nothing else.
pub proof fn lemma_lookup_counts_one_call(s: HashCachesView, kind: HashCacheKind, key: Seq<u8>)
    requires
        s.enabled,
    ensures
        ({
            let before = s.cache(kind);
            let after = s.after_lookup_in(kind, key).cache(kind);
            &&& after.entries == before.entries
            &&& after.capacity == before.capacity
            &&& after.capacity_clears == before.capacity_clears
            &&& s.lookup_in(kind, key) is Some ==> after.hits == wrapping_inc(before.hits)
                && after.misses == before.misses
            &&& s.lookup_in(kind, key) is None ==> after.misses == wrapping_inc(before.misses)
                && after.hits == before.hits
        }),
{
}

/// A lookup or a store in one cache leaves every other cache as it was.
pub proof fn lemma_caches_are_independent(
    s: HashCachesView,
    kind: HashCacheKind,
    other: HashCacheKind,
    key: Seq<u8>,
    value: FeltBytes,
)
    requires
        kind != other,
    ensures
        s.after_lookup_in(kind, key).cache(other) == s.cache(other),
        s.after_store_in(kind, key, value).cache(other) == s.cache(other),
        s.after_lookup_in(kind, key).enabled == s.enabled,
        s.after_store_in(kind, key, value).enabled == s.enabled,
{
}

/// Reconfiguring or switching memoization keeps every counter.
pub proof fn lemma_counters_survive_reconfiguration(
    s: HashCachesView,
    config: HashCacheConfig,
    enabled: bool,
    kind: HashCacheKind,
)
    ensures
        s.configured(config).cache(kind).hits == s.cache(kind).hits,
        s.configured(config).cache(kind).misses == s.cache(kind).misses,
        s.configured(config).cache(kind).capacity_clears == s.cache(kind).capacity_clears,
        s.switched(enabled).cache(kind).hits == s.cache(kind).hits,
        s.switched(enabled).cache(kind).misses == s.cache(kind).misses,
        s.switched(enabled).cache(kind).capacity_clears == s.cache(kind).capacity_clears,
{
}

/// Every operation keeps the caches well formed: no cache ever holds more
/// entries than its capacity, and no cache holds anything while memoization
/// is off.
pub proof fn lemma_caches_stay_within_capacity(
    s: HashCachesView,
    kind: HashCacheKind,
    key: Seq<u8>,
    value: FeltBytes,
    config: HashCacheConfig,
    enabled: bool,
)
    requires
        s.wf(),
    ensures
        HashCachesView::initial().wf(),
        s.after_lookup_in(kind, key).wf(),
        s.after_store_in(kind, key, value).wf(),
        s.configured(config).wf(),
        s.switched(enabled).wf(),
        s.cache(kind).entries.len() <= s.cache(kind).capacity,
        !s.enabled ==> s.cache(kind).entries.len() == 0,
{
    lemma_after_store_wf(s.cache(kind), s.enabled, key, value);
}

/// Whatever the length of a cache before, a store while memoization is on
/// into a cache of non-zero capacity leaves the stored entry in it and at
/// least one and at most `capacity` entries.
pub proof fn lemma_store_holds_entry_within_capacity(c: CacheView, key: Seq<u8>, value: FeltBytes)
    requires
        c.entries.dom().finite(),
        c.capacity > 0,
    ensures
        c.after_store(true, key, value).entries.contains_key(key),
        c.after_store(true, key, value).entries[key] == value,
        1 <= c.after_store(true, key, value).entries.len() <= c.capacity,
{
    if c.entries.len() >= c.capacity {
        assert(no_entries().insert(key, value).dom() =~= Set::<Seq<u8>>::empty().insert(key));
    } else {
        assert(c.entries.insert(key, value).dom() =~= c.entries.dom().insert(key));
    }
}

/// One call never lowers a counter of any cache that is below `u64::MAX`.
pub proof fn lemma_step_never_lowers_counters(s: HashCachesView, op: CacheOp, kind: HashCacheKind)
    requires
        s.cache(kind).counters_below_max(),
    ensures
        s.step(op).cache(kind).hits >= s.cache(kind).hits,
        s.step(op).cache(kind).misses >= s.cache(kind).misses,
        s.step(op).cache(kind).capacity_clears >= s.cache(kind).capacity_clears,
{
}

/// Counters never fall: across any sequence of calls in which no counter of
/// the cache of `kind` wraps past `u64::MAX`, its hits, misses, capacity
/// clears and reported total calls are at least what they were before.
pub proof fn lemma_counters_never_fall(s: HashCachesView, ops: Seq<CacheOp>, kind: HashCacheKind)
    requires
        forall|i: int| 0 <= i < ops.len() ==> (#[trigger] s.run(ops.take(i))).cache(kind).counters_below_max(),
    ensures
        s.run(ops).cache(kind).hits >= s.cache(kind).hits,
        s.run(ops).cache(kind).misses >= s.cache(kind).misses,
        s.run(ops).cache(kind).capacity_clears >= s.cache(kind).capacity_clears,
        s.run(ops).cache(kind).metrics(kind).total_calls >= s.cache(kind).metrics(kind).total_calls,
    decreases ops.len(),
{
    if ops.len() > 0 {
        let prefix = ops.drop_last();
        assert forall|i: int| 0 <= i < prefix.len() implies (#[trigger] s.run(prefix.take(i))).cache(
            kind,
        ).counters_below_max() by {
            assert(prefix.take(i) =~= ops.take(i));
        }
        lemma_counters_never_fall(s, prefix, kind);
        assert(ops.take(ops.len() - 1) =~= prefix);
        assert(s.run(ops.take(ops.len() - 1)).cache(kind).counters_below_max());
        lemma_step_never_lowers_counters(s.run(prefix), ops.last(), kind);
    }
}

/// A cache of capacity zero holding nothing stays so, and every lookup in it
/// misses, across any sequence of calls without a reconfiguration.
pub proof fn lemma_zero_capacity_cache_stays_empty(
    s: HashCachesView,
    ops: Seq<CacheOp>,
    kind: HashCacheKind,
)
    requires
        s.cache(kind).capacity == 0,
        s.cache(kind).entries == no_entries(),
        forall|i: int| 0 <= i < ops.len() ==> !(#[trigger] ops[i] is Configure),
    ensures
        s.run(ops).cache(kind).capacity == 0,
        s.run(ops).cache(kind).entries == no_entries(),
        s.run(ops).cache(kind).metrics(kind).entries == 0,
        forall|key: Seq<u8>| (#[trigger] s.run(ops).lookup_in(kind, key)) is None,
    decreases ops.len(),
{
    if ops.len() > 0 {
        let prefix = ops.drop_last();
        assert forall|i: int| 0 <= i < prefix.len() implies !(#[trigger] prefix[i] is Configure) by {
            assert(prefix[i] == ops[i]);
        }
        lemma_zero_capacity_cache_stays_empty(s, prefix, kind);
        assert(!(ops[ops.len() - 1] is Configure));
        assert(no_entries().dom() =~= Set::<Seq<u8>>::empty());
    } else {
        assert(no_entries().dom() =~= Set::<Seq<u8>>::empty());
    }
}

/// A capacity of zero disables that cache alone: after a configuration that
/// gives the cache of `kind` capacity zero, and until the next
/// configuration, that cache holds nothing and every lookup in it misses.
pub proof fn lemma_configured_zero_capacity_disables_cache(
    s: HashCachesView,
    config: HashCacheConfig,
    ops: Seq<CacheOp>,
    kind: HashCacheKind,
)
    requires
        config.capacity_of(kind) == 0,
        forall|i: int| 0 <= i < ops.len() ==> !(#[trigger] ops[i] is Configure),
    ensures
        s.configured(config).run(ops).cache(kind).entries == no_entries(),
        s.configured(config).run(ops).cache(kind).metrics(kind).entries == 0,
        forall|key: Seq<u8>| (#[trigger] s.configured(config).run(ops).lookup_in(kind, key)) is None,
{
    lemma_zero_capacity_cache_stays_empty(s.configured(config), ops, kind);
}

/// A key is found only where it was stored: if the cache of `kind` does not
/// hold `key`, it still does not after any sequence of calls none of which
/// stores under `key` in that cache, and a lookup of `key` there misses.
pub proof fn lemma_unstored_key_is_absent(
    s: HashCachesView,
    ops: Seq<CacheOp>,
    kind: HashCacheKind,
    key: Seq<u8>,
)
    requires
        !s.cache(kind).entries.contains_key(key),
        forall|i: int| 0 <= i < ops.len() ==> !(#[trigger] ops[i]).stores_key(kind, key),
    ensures
        !s.run(ops).cache(kind).entries.contains_key(key),
        s.run(ops).lookup_in(kind, key) is None,
    decreases ops.len(),
{
    if ops.len() > 0 {
        let prefix = ops.drop_last();
        assert forall|i: int| 0 <= i < prefix.len() implies !(#[trigger] prefix[i]).stores_key(
            kind,
            key,
        ) by {
            assert(prefix[i] == ops[i]);
        }
        lemma_unstored_key_is_absent(s, prefix, kind, key);
        assert(!ops[ops.len() - 1].stores_key(kind, key));
    }
}

/// The key of a Pedersen pair is ordered: after a configuration, and calls
/// whose Pedersen-pair stores are all of the pair `(a, b)` with `a != b`, a
/// lookup of the pair `(b, a)` misses.
pub proof fn lemma_reversed_pair_is_not_found(
    s: HashCachesView,
    config: HashCacheConfig,
    ops: Seq<CacheOp>,
    a: FeltBytes,
    b: FeltBytes,
)
    requires
        a != b,
        forall|i: int|
            0 <= i < ops.len() && (#[trigger] ops[i]).stores_in(HashCacheKind::PedersenPair)
                ==> ops[i].stores_key(HashCacheKind::PedersenPair, felt_pair_bytes(a, b)),
    ensures
        s.configured(config).run(ops).lookup_in(HashCacheKind::PedersenPair, felt_pair_bytes(b, a))
            is None,
{
    let key = felt_pair_bytes(b, a);
    if felt_pair_bytes(a, b) == key {
        lemma_felt_pair_key_injective(a, b, b, a);
    }
    assert forall|i: int| 0 <= i < ops.len() implies !(#[trigger] ops[i]).stores_key(
        HashCacheKind::PedersenPair,
        key,
    ) by {
        if ops[i].stores_key(HashCacheKind::PedersenPair, key) {
            assert(ops[i].stores_in(HashCacheKind::PedersenPair));
        }
    }
    lemma_unstored_key_is_absent(s.configured(config), ops, HashCacheKind::PedersenPair, key);
}

/// The Poseidon and Pedersen array caches are separate although both are
/// keyed by arrays of field elements: after a configuration, and calls that
/// store nothing in the Poseidon cache, a Poseidon lookup misses and, while
/// memoization is on, counts one Poseidon miss.
pub proof fn lemma_poseidon_cache_is_separate(
    s: HashCachesView,
    config: HashCacheConfig,
    ops: Seq<CacheOp>,
    key: Seq<u8>,
)
    requires
        forall|i: int| 0 <= i < ops.len() ==> !(#[trigger] ops[i]).stores_in(HashCacheKind::PoseidonArray),
    ensures
        s.configured(config).run(ops).lookup_in(HashCacheKind::PoseidonArray, key) is None,
        ({
            let t = s.configured(config).run(ops);
            t.enabled ==> t.after_lookup_in(HashCacheKind::PoseidonArray, key).poseidon_array.misses
                == wrapping_inc(t.poseidon_array.misses)
        }),
{
    assert forall|i: int| 0 <= i < ops.len() implies !(#[trigger] ops[i]).stores_key(
        HashCacheKind::PoseidonArray,
        key,
    ) by {
        if ops[i].stores_key(HashCacheKind::PoseidonArray, key) {
            assert(ops[i].stores_in(HashCacheKind::PoseidonArray));
        }
    }
    lemma_unstored_key_is_absent(s.configured(config), ops, HashCacheKind::PoseidonArray, key);
}

} // verus!
