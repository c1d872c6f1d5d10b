# starknet_hash_cache

Memoization of Starknet hashes (Starknet Keccak, Pedersen over pairs and
arrays, Poseidon over arrays) with hit, miss and capacity-clear counters, and
the process-lifetime totals of a transaction executor, verified with Verus.

- `src/cache_map.rs`: the `DashMap` behind each cache, seen through its contents.
- `src/felt_key.rs`: cache keys for field elements, and their injectivity.
- `src/hash_cache.rs`: configuration, lookups, stores, metrics, and the laws they obey.
- `src/metrics.rs`: transaction-executor totals.
- `src/native_stack.rs`: when work may run in place on a registered execution thread.
- `app/`: the process-wide state behind locks, conversion to and from
  `starknet_types_core::felt::Felt`, and the execution threads.
