[package]
name = "starknet_hash_cache"
version = "0.1.0"
edition = "2021"
publish = false

[dependencies]
dashmap = "=6.2.1"
starknet-types-core = "=1.0.0"
