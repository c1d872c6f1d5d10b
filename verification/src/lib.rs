//! Process-wide memoization of Starknet hashes, with per-cache hit, miss and
//! eviction counters, and transaction-executor totals.

pub mod cache_laws;
pub mod cache_map;
pub mod felt_key;
pub mod hash_cache;
pub mod metrics;
pub mod native_stack;
