//! What each call on the hash caches does, stated over the caches' fields:
//! the switch, each cache's entries, capacity and counters. These laws pin
//! down the transitions that the functions of `hash_cache` are specified by.

use crate::cache_map::FeltBytes;
use crate::hash_cache::{
    default_hash_cache_config, CacheOp, CacheView, HashCacheConfig, HashCacheKind,
    HashCachesView,
};
use vstd::prelude::*;

verus! {

/// Each kind has its own cache, and replacing the cache of one kind leaves
/// the switch and the caches of every other kind as they were.
pub proof fn lemma_each_kind_has_its_own_cache(s: HashCachesView, kind: HashCacheKind, c: CacheView)
    ensures
        s.cache(HashCacheKind::SnKeccak) == s.sn_keccak,
        s.cache(HashCacheKind::PedersenPair) == s.pedersen_pair,
        s.cache(HashCacheKind::PedersenArray) == s.pedersen_array,
        s.cache(HashCacheKind::PoseidonArray) == s.poseidon_array,
        s.with_cache(kind, c).cache(kind) == c,
        s.with_cache(kind, c).enabled == s.enabled,
        forall|other: HashCacheKind|
            other != kind ==> #[trigger] s.with_cache(kind, c).cache(other) == s.cache(other),
{
}

/// A lookup returns the stored hash exactly when memoization is on and the
/// cache of its kind holds the key. While memoization is on it counts one
/// hit when it finds the key and one miss when it does not (each counter
/// wrapping to zero past `u64::MAX`); it changes no entry, capacity or
/// capacity clear, no other cache and not the switch. While memoization is
/// off it changes nothing.
pub proof fn lemma_lookup_effect(s: HashCachesView, kind: HashCacheKind, key: Seq<u8>)
    ensures
        ({
            let before = s.cache(kind);
            let after = s.after_lookup_in(kind, key);
            let found = s.lookup_in(kind, key);
            &&& found is Some <==> (s.enabled && before.entries.contains_key(key))
            &&& found is Some ==> found->0 == before.entries[key]
            &&& after.enabled == s.enabled
            &&& after.cache(kind).entries == before.entries
            &&& after.cache(kind).capacity == before.capacity
            &&& after.cache(kind).capacity_clears == before.capacity_clears
            &&& forall|other: HashCacheKind|
                other != kind ==> #[trigger] after.cache(other) == s.cache(other)
            &&& !s.enabled ==> after == s
            &&& (s.enabled && found is Some) ==> after.cache(kind).hits as int == (before.hits + 1)
                % 0x1_0000_0000_0000_0000 && after.cache(kind).misses == before.misses
            &&& (s.enabled && found is None) ==> after.cache(kind).misses as int == (before.misses
                + 1) % 0x1_0000_0000_0000_0000 && after.cache(kind).hits == before.hits
        }),
{
    assert(s.with_cache(kind, s.cache(kind)) == s);
}

/// A store counts no hit and no miss, keeps the capacity, the switch and
/// every other cache. While memoization is off, or in a cache of capacity
/// zero, it changes nothing. In a cache holding fewer entries than its
/// capacity it adds the entry and keeps every entry already held, counting
/// no capacity clear. In a full cache it drops every entry, keeps the new
/// one alone and counts one capacity clear (wrapping past `u64::MAX`).
pub proof fn lemma_store_effect(
    s: HashCachesView,
    kind: HashCacheKind,
    key: Seq<u8>,
    value: FeltBytes,
)
    ensures
        ({
            let before = s.cache(kind);
            let after = s.after_store_in(kind, key, value);
            &&& after.enabled == s.enabled
            &&& after.cache(kind).hits == before.hits
            &&& after.cache(kind).misses == before.misses
            &&& after.cache(kind).capacity == before.capacity
            &&& forall|other: HashCacheKind|
                other != kind ==> #[trigger] after.cache(other) == s.cache(other)
            &&& (!s.enabled || before.capacity == 0) ==> after == s
            &&& (s.enabled && before.entries.len() < before.capacity) ==> after.cache(
                kind,
            ).entries == before.entries.insert(key, value) && after.cache(kind).capacity_clears
                == before.capacity_clears
            &&& (s.enabled && 0 < before.capacity <= before.entries.len()) ==> after.cache(
                kind,
            ).entries == Map::<Seq<u8>, FeltBytes>::empty().insert(key, value) && after.cache(
                kind,
            ).capacity_clears as int == (before.capacity_clears + 1) % 0x1_0000_0000_0000_0000
        }),
{
    assert(s.with_cache(kind, s.cache(kind)) == s);
}

/// Below capacity nothing is evicted: a hash stored earlier is still
/// returned after storing under another key into a cache that held fewer
/// entries than its capacity.
pub proof fn lemma_store_below_capacity_keeps_earlier_entries(
    s: HashCachesView,
    kind: HashCacheKind,
    earlier: Seq<u8>,
    key: Seq<u8>,
    value: FeltBytes,
)
    requires
        s.enabled,
        s.cache(kind).entries.len() < s.cache(kind).capacity,
        s.cache(kind).entries.contains_key(earlier),
        earlier != key,
    ensures
        s.after_store_in(kind, key, value).lookup_in(kind, earlier) == Some(
            s.cache(kind).entries[earlier],
        ),
        s.after_store_in(kind, key, value).cache(kind).capacity_clears
            == s.cache(kind).capacity_clears,
{
    lemma_store_effect(s, kind, key, value);
    lemma_lookup_effect(s.after_store_in(kind, key, value), kind, earlier);
}

/// After `set_hash_cache_enabled(enabled)` memoization is on exactly when
/// `enabled`. Every capacity and counter is kept; switching on keeps every
/// entry and switching off drops every entry of every cache.
pub proof fn lemma_switch_effect(s: HashCachesView, enabled: bool)
    ensures
        s.switched(enabled).enabled == enabled,
        forall|kind: HashCacheKind|
            {
                let before = s.cache(kind);
                let after = #[trigger] s.switched(enabled).cache(kind);
                &&& after.capacity == before.capacity
                &&& after.hits == before.hits
                &&& after.misses == before.misses
                &&& after.capacity_clears == before.capacity_clears
                &&& enabled ==> after.entries == before.entries
                &&& !enabled ==> after.entries == Map::<Seq<u8>, FeltBytes>::empty()
            },
{
}

/// After `configure_hash_cache(config)` memoization is on exactly when
/// `config.enabled`, whatever the capacities; each cache has its configured
/// capacity and no entries, and keeps its counters.
pub proof fn lemma_configure_effect(s: HashCachesView, config: HashCacheConfig)
    ensures
        s.configured(config).enabled == config.enabled,
        s.configured(config).sn_keccak.capacity == config.sn_keccak_capacity,
        s.configured(config).pedersen_pair.capacity == config.pedersen_pair_capacity,
        s.configured(config).pedersen_array.capacity == config.pedersen_array_capacity,
        s.configured(config).poseidon_array.capacity == config.poseidon_array_capacity,
        config.capacity_of(HashCacheKind::SnKeccak) == config.sn_keccak_capacity,
        config.capacity_of(HashCacheKind::PedersenPair) == config.pedersen_pair_capacity,
        config.capacity_of(HashCacheKind::PedersenArray) == config.pedersen_array_capacity,
        config.capacity_of(HashCacheKind::PoseidonArray) == config.poseidon_array_capacity,
        forall|kind: HashCacheKind|
            {
                let before = s.cache(kind);
                let after = #[trigger] s.configured(config).cache(kind);
                &&& after.entries == Map::<Seq<u8>, FeltBytes>::empty()
                &&& after.hits == before.hits
                &&& after.misses == before.misses
                &&& after.capacity_clears == before.capacity_clears
            },
{
}

/// A zero capacity disables its own cache alone: after a configuration with
/// memoization on, a store into a cache of non-zero capacity is returned by
/// the next lookup of its key, whatever the other capacities are.
pub proof fn lemma_zero_capacity_disables_only_its_cache(
    s: HashCachesView,
    config: HashCacheConfig,
    kind: HashCacheKind,
    key: Seq<u8>,
    value: FeltBytes,
)
    requires
        config.enabled,
        config.capacity_of(kind) > 0,
    ensures
        s.configured(config).after_store_in(kind, key, value).lookup_in(kind, key) == Some(value),
{
    lemma_configure_effect(s, config);
    lemma_store_effect(s.configured(config), kind, key, value);
    let t = s.configured(config).after_store_in(kind, key, value);
    assert(t.cache(kind).entries.contains_key(key));
    lemma_lookup_effect(t, kind, key);
}

/// A cache's snapshot reports its own counters, entry count and capacity,
/// under its kind; the total is the sum of hits and misses, or `u64::MAX`
/// where the sum does not fit.
pub proof fn lemma_metrics_report_the_cache(c: CacheView, kind: HashCacheKind)
    requires
        c.entries.len() <= usize::MAX,
    ensures
        c.metrics(kind).kind == kind,
        c.metrics(kind).hits == c.hits,
        c.metrics(kind).misses == c.misses,
        c.metrics(kind).capacity_clears == c.capacity_clears,
        c.metrics(kind).capacity == c.capacity,
        c.metrics(kind).entries == c.entries.len(),
        c.hits + c.misses <= u64::MAX ==> c.metrics(kind).total_calls == c.hits + c.misses,
        c.hits + c.misses > u64::MAX ==> c.metrics(kind).total_calls == u64::MAX,
{
}

/// Each call of `CacheOp` is the transition of the function that makes it.
pub proof fn lemma_step_is_the_call(s: HashCachesView, op: CacheOp)
    ensures
        op matches CacheOp::Configure(config) ==> s.step(op) == s.configured(config),
        op matches CacheOp::Switch(enabled) ==> s.step(op) == s.switched(enabled),
        op matches CacheOp::Lookup(kind, key) ==> s.step(op) == s.after_lookup_in(kind, key),
        op matches CacheOp::Store(kind, key, value) ==> s.step(op) == s.after_store_in(
            kind,
            key,
            value,
        ),
{
}

/// Running no calls changes nothing, and running one more call applies it
/// to the caches the earlier calls left.
pub proof fn lemma_run_applies_calls_in_order(s: HashCachesView, ops: Seq<CacheOp>, op: CacheOp)
    ensures
        s.run(Seq::<CacheOp>::empty()) == s,
        s.run(ops.push(op)) == s.run(ops).step(op),
{
    assert(ops.push(op).drop_last() =~= ops);
}

/// A process starts with memoization off, no entries, every counter zero,
/// and capacities 8192 for Starknet Keccak and Pedersen pairs and 2048 for
/// Pedersen and Poseidon arrays; the default configuration has the same
/// switch and capacities.
pub proof fn lemma_fresh_state_and_default_config()
    ensures
        !HashCachesView::initial().enabled,
        HashCachesView::initial().sn_keccak.capacity == 8192,
        HashCachesView::initial().pedersen_pair.capacity == 8192,
        HashCachesView::initial().pedersen_array.capacity == 2048,
        HashCachesView::initial().poseidon_array.capacity == 2048,
        forall|kind: HashCacheKind|
            {
                let c = #[trigger] HashCachesView::initial().cache(kind);
                &&& c.entries == Map::<Seq<u8>, FeltBytes>::empty()
                &&& c.hits == 0
                &&& c.misses == 0
                &&& c.capacity_clears == 0
            },
        !default_hash_cache_config().enabled,
        default_hash_cache_config().sn_keccak_capacity == 8192,
        default_hash_cache_config().pedersen_pair_capacity == 8192,
        default_hash_cache_config().pedersen_array_capacity == 2048,
        default_hash_cache_config().poseidon_array_capacity == 2048,
{
}

/// Each kind reports its metrics under its own name, and no two kinds share one.
pub proof fn lemma_kind_names()
    ensures
        HashCacheKind::SnKeccak.name() == "starknet_keccak"@,
        HashCacheKind::PedersenPair.name() == "pedersen_pair"@,
        HashCacheKind::PedersenArray.name() == "pedersen_array"@,
        HashCacheKind::PoseidonArray.name() == "poseidon_array"@,
        forall|a: HashCacheKind, b: HashCacheKind| a != b ==> #[trigger] a.name() != #[trigger] b.name(),
{
    reveal_strlit("starknet_keccak");
    reveal_strlit("pedersen_pair");
    reveal_strlit("pedersen_array");
    reveal_strlit("poseidon_array");
    assert("starknet_keccak"@.len() != "pedersen_pair"@.len());
    assert("starknet_keccak"@.len() != "pedersen_array"@.len());
    assert("starknet_keccak"@.len() != "poseidon_array"@.len());
    assert("pedersen_pair"@.len() != "pedersen_array"@.len());
    assert("pedersen_pair"@.len() != "poseidon_array"@.len());
    assert("pedersen_array"@[1] != "poseidon_array"@[1]);
}

} // verus!
