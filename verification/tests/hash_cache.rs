use starknet_hash_cache::cache_map::FeltBytes;
use starknet_hash_cache::felt_key::{felt_array_key, felt_pair_key};
use starknet_hash_cache::hash_cache::{
    configure_hash_cache, enabled, hash_cache_metrics, pedersen_array_get,
    pedersen_array_insert, pedersen_pair_get, pedersen_pair_insert, poseidon_array_get,
    poseidon_array_insert, set_hash_cache_enabled, sn_keccak_get, sn_keccak_insert,
    HashCacheConfig, HashCacheKind, HashCaches, DEFAULT_PEDERSEN_ARRAY_CACHE_CAPACITY,
    DEFAULT_PEDERSEN_PAIR_CACHE_CAPACITY, DEFAULT_POSEIDON_ARRAY_CACHE_CAPACITY,
    DEFAULT_SN_KECCAK_CACHE_CAPACITY,
};
use starknet_types_core::felt::Felt;

fn felt(n: u8) -> FeltBytes {
    Felt::from(n).to_bytes_be()
}

#[test]
fn cache_is_bypassed_when_disabled_and_reused_when_enabled() {
    let mut caches = HashCaches::new();
    let key = felt(1);
    let value = felt(2);

    configure_hash_cache(&mut caches, HashCacheConfig::default());
    pedersen_pair_insert(&mut caches, key, key, value);
    assert_eq!(pedersen_pair_get(&mut caches, key, key), None);

    set_hash_cache_enabled(&mut caches, true);
    pedersen_pair_insert(&mut caches, key, key, value);
    assert_eq!(pedersen_pair_get(&mut caches, key, key), Some(value));

    set_hash_cache_enabled(&mut caches, false);
}

#[test]
fn capacity_and_metrics_are_configurable() {
    let mut caches = HashCaches::new();
    let before = hash_cache_metrics(&caches)[1];
    configure_hash_cache(
        &mut caches,
        HashCacheConfig { enabled: true, pedersen_pair_capacity: 1, ..Default::default() },
    );

    let first = felt(1);
    let second = felt(2);
    let value = felt(3);
    assert_eq!(pedersen_pair_get(&mut caches, first, first), None);
    pedersen_pair_insert(&mut caches, first, first, value);
    assert_eq!(pedersen_pair_get(&mut caches, first, first), Some(value));
    pedersen_pair_insert(&mut caches, second, second, value);

    let after = hash_cache_metrics(&caches)[1];
    assert_eq!(after.capacity, 1);
    assert_eq!(after.entries, 1);
    assert_eq!(after.total_calls, before.total_calls + 2);
    assert_eq!(after.hits, before.hits + 1);
    assert_eq!(after.misses, before.misses + 1);
    assert_eq!(after.capacity_clears, before.capacity_clears + 1);
    assert_eq!(pedersen_pair_get(&mut caches, first, first), None);
    assert_eq!(pedersen_pair_get(&mut caches, second, second), Some(value));

    configure_hash_cache(&mut caches, HashCacheConfig::default());
}

#[test]
fn kind_names_are_reported() {
    assert_eq!(HashCacheKind::SnKeccak.as_str(), "starknet_keccak");
    assert_eq!(HashCacheKind::PedersenPair.as_str(), "pedersen_pair");
    assert_eq!(HashCacheKind::PedersenArray.as_str(), "pedersen_array");
    assert_eq!(HashCacheKind::PoseidonArray.as_str(), "poseidon_array");
}

#[test]
fn default_config_is_disabled_with_default_capacities() {
    let config = HashCacheConfig::default();
    assert!(!config.enabled);
    assert_eq!(config.sn_keccak_capacity, 8192);
    assert_eq!(config.pedersen_pair_capacity, 8192);
    assert_eq!(config.pedersen_array_capacity, 2048);
    assert_eq!(config.poseidon_array_capacity, 2048);
    assert_eq!(DEFAULT_SN_KECCAK_CACHE_CAPACITY, 8192);
    assert_eq!(DEFAULT_PEDERSEN_PAIR_CACHE_CAPACITY, 8192);
    assert_eq!(DEFAULT_PEDERSEN_ARRAY_CACHE_CAPACITY, 2048);
    assert_eq!(DEFAULT_POSEIDON_ARRAY_CACHE_CAPACITY, 2048);
}

#[test]
fn fresh_caches_report_default_capacities_and_zero_counters() {
    let caches = HashCaches::new();
    assert!(!enabled(&caches));
    let metrics = hash_cache_metrics(&caches);
    let kinds = [
        HashCacheKind::SnKeccak,
        HashCacheKind::PedersenPair,
        HashCacheKind::PedersenArray,
        HashCacheKind::PoseidonArray,
    ];
    let capacities = [8192, 8192, 2048, 2048];
    for i in 0..4 {
        assert_eq!(metrics[i].kind, kinds[i]);
        assert_eq!(metrics[i].capacity, capacities[i]);
        assert_eq!(metrics[i].entries, 0);
        assert_eq!(metrics[i].hits, 0);
        assert_eq!(metrics[i].misses, 0);
        assert_eq!(metrics[i].total_calls, 0);
        assert_eq!(metrics[i].capacity_clears, 0);
    }
}

#[test]
fn disabled_lookups_are_not_counted() {
    let mut caches = HashCaches::new();
    assert_eq!(sn_keccak_get(&mut caches, b"abc"), None);
    sn_keccak_insert(&mut caches, b"abc", felt(7));
    assert_eq!(sn_keccak_get(&mut caches, b"abc"), None);
    let metrics = hash_cache_metrics(&caches)[0];
    assert_eq!(metrics.total_calls, 0);
    assert_eq!(metrics.entries, 0);
}

#[test]
fn sn_keccak_cache_returns_stored_hash() {
    let mut caches = HashCaches::new();
    set_hash_cache_enabled(&mut caches, true);
    assert!(enabled(&caches));
    sn_keccak_insert(&mut caches, b"transfer", felt(9));
    assert_eq!(sn_keccak_get(&mut caches, b"transfer"), Some(felt(9)));
    assert_eq!(sn_keccak_get(&mut caches, b"transfe"), None);
    sn_keccak_insert(&mut caches, b"transfer", felt(10));
    assert_eq!(sn_keccak_get(&mut caches, b"transfer"), Some(felt(10)));
    let metrics = hash_cache_metrics(&caches)[0];
    assert_eq!(metrics.entries, 1);
    assert_eq!(metrics.hits, 2);
    assert_eq!(metrics.misses, 1);
    assert_eq!(metrics.total_calls, 3);
}

#[test]
fn zero_capacity_cache_never_stores() {
    let mut caches = HashCaches::new();
    configure_hash_cache(
        &mut caches,
        HashCacheConfig { enabled: true, poseidon_array_capacity: 0, ..Default::default() },
    );
    let values = [felt(1), felt(2)];
    poseidon_array_insert(&mut caches, &values, felt(3));
    assert_eq!(poseidon_array_get(&mut caches, &values), None);
    let metrics = hash_cache_metrics(&caches)[3];
    assert_eq!(metrics.entries, 0);
    assert_eq!(metrics.capacity, 0);
    assert_eq!(metrics.misses, 1);
    assert_eq!(metrics.capacity_clears, 0);
}

#[test]
fn disabling_empties_every_cache_and_keeps_counters() {
    let mut caches = HashCaches::new();
    set_hash_cache_enabled(&mut caches, true);
    sn_keccak_insert(&mut caches, b"x", felt(1));
    pedersen_pair_insert(&mut caches, felt(1), felt(2), felt(3));
    pedersen_array_insert(&mut caches, &[felt(1)], felt(4));
    poseidon_array_insert(&mut caches, &[felt(1)], felt(5));
    assert_eq!(pedersen_array_get(&mut caches, &[felt(1)]), Some(felt(4)));
    set_hash_cache_enabled(&mut caches, false);
    for m in hash_cache_metrics(&caches) {
        assert_eq!(m.entries, 0);
    }
    assert_eq!(hash_cache_metrics(&caches)[2].hits, 1);
    set_hash_cache_enabled(&mut caches, true);
    assert_eq!(pedersen_array_get(&mut caches, &[felt(1)]), None);
}

#[test]
fn reconfiguring_empties_caches_and_keeps_counters() {
    let mut caches = HashCaches::new();
    set_hash_cache_enabled(&mut caches, true);
    pedersen_pair_insert(&mut caches, felt(1), felt(2), felt(3));
    assert_eq!(pedersen_pair_get(&mut caches, felt(1), felt(2)), Some(felt(3)));
    configure_hash_cache(
        &mut caches,
        HashCacheConfig { enabled: true, pedersen_pair_capacity: 5, ..Default::default() },
    );
    let m = hash_cache_metrics(&caches)[1];
    assert_eq!(m.entries, 0);
    assert_eq!(m.capacity, 5);
    assert_eq!(m.hits, 1);
    assert_eq!(pedersen_pair_get(&mut caches, felt(1), felt(2)), None);
}

#[test]
fn array_caches_are_independent() {
    let mut caches = HashCaches::new();
    set_hash_cache_enabled(&mut caches, true);
    let values = [felt(4), felt(5), felt(6)];
    pedersen_array_insert(&mut caches, &values, felt(7));
    assert_eq!(poseidon_array_get(&mut caches, &values), None);
    assert_eq!(pedersen_array_get(&mut caches, &values), Some(felt(7)));
    let reversed = [felt(6), felt(5), felt(4)];
    assert_eq!(pedersen_array_get(&mut caches, &reversed), None);
    assert_eq!(pedersen_pair_get(&mut caches, felt(4), felt(5)), None);
}

#[test]
fn pair_order_matters() {
    let mut caches = HashCaches::new();
    set_hash_cache_enabled(&mut caches, true);
    pedersen_pair_insert(&mut caches, felt(1), felt(2), felt(3));
    assert_eq!(pedersen_pair_get(&mut caches, felt(2), felt(1)), None);
    assert_eq!(pedersen_pair_get(&mut caches, felt(1), felt(2)), Some(felt(3)));
}

#[test]
fn full_cache_is_emptied_before_storing() {
    let mut caches = HashCaches::new();
    configure_hash_cache(
        &mut caches,
        HashCacheConfig { enabled: true, sn_keccak_capacity: 2, ..Default::default() },
    );
    sn_keccak_insert(&mut caches, b"a", felt(1));
    sn_keccak_insert(&mut caches, b"b", felt(2));
    assert_eq!(hash_cache_metrics(&caches)[0].entries, 2);
    assert_eq!(hash_cache_metrics(&caches)[0].capacity_clears, 0);
    sn_keccak_insert(&mut caches, b"c", felt(3));
    let m = hash_cache_metrics(&caches)[0];
    assert_eq!(m.entries, 1);
    assert_eq!(m.capacity_clears, 1);
    assert_eq!(sn_keccak_get(&mut caches, b"a"), None);
    assert_eq!(sn_keccak_get(&mut caches, b"c"), Some(felt(3)));
}

#[test]
fn keys_concatenate_big_endian_encodings() {
    let one = felt(1);
    let two = felt(2);
    let pair = felt_pair_key(&one, &two);
    assert_eq!(pair.len(), 64);
    assert_eq!(&pair[..32], &one[..]);
    assert_eq!(&pair[32..], &two[..]);
    assert_eq!(pair[31], 1);
    assert_eq!(pair[63], 2);
    assert_eq!(felt_array_key(&[one, two]), pair);
    assert_eq!(felt_array_key(&[]), Vec::<u8>::new());
    assert_eq!(felt_array_key(&[one, two, one]).len(), 96);
}

#[test]
fn zero_capacity_disables_only_that_cache() {
    let mut caches = HashCaches::new();
    configure_hash_cache(
        &mut caches,
        HashCacheConfig { enabled: true, pedersen_pair_capacity: 0, ..Default::default() },
    );
    for n in 0..5u8 {
        pedersen_pair_insert(&mut caches, felt(n), felt(n + 1), felt(9));
        set_hash_cache_enabled(&mut caches, true);
        assert_eq!(pedersen_pair_get(&mut caches, felt(n), felt(n + 1)), None);
    }
    assert_eq!(hash_cache_metrics(&caches)[1].entries, 0);
    sn_keccak_insert(&mut caches, b"still", felt(4));
    assert_eq!(sn_keccak_get(&mut caches, b"still"), Some(felt(4)));
}

#[test]
fn counters_never_fall_across_calls() {
    let mut caches = HashCaches::new();
    set_hash_cache_enabled(&mut caches, true);
    let mut previous = hash_cache_metrics(&caches);
    for n in 0..6u8 {
        pedersen_pair_insert(&mut caches, felt(n), felt(n), felt(n));
        let _ = pedersen_pair_get(&mut caches, felt(n), felt(n));
        let _ = pedersen_pair_get(&mut caches, felt(n + 1), felt(n));
        if n % 2 == 0 {
            set_hash_cache_enabled(&mut caches, false);
            set_hash_cache_enabled(&mut caches, true);
        } else {
            configure_hash_cache(
                &mut caches,
                HashCacheConfig { enabled: true, pedersen_pair_capacity: 1, ..Default::default() },
            );
        }
        let now = hash_cache_metrics(&caches);
        for i in 0..4 {
            assert!(now[i].hits >= previous[i].hits);
            assert!(now[i].misses >= previous[i].misses);
            assert!(now[i].capacity_clears >= previous[i].capacity_clears);
            assert!(now[i].total_calls >= previous[i].total_calls);
        }
        previous = now;
    }
    assert_eq!(previous[1].hits, 6);
    assert_eq!(previous[1].misses, 6);
}

#[test]
fn poseidon_lookup_misses_after_pedersen_array_stores() {
    let mut caches = HashCaches::new();
    configure_hash_cache(&mut caches, HashCacheConfig { enabled: true, ..Default::default() });
    let values = [felt(1), felt(2)];
    pedersen_array_insert(&mut caches, &values, felt(3));
    let before = hash_cache_metrics(&caches)[3];
    assert_eq!(poseidon_array_get(&mut caches, &values), None);
    assert_eq!(hash_cache_metrics(&caches)[3].misses, before.misses + 1);
}
