[package]
name = "slatedb_wal_gc"
version = "0.1.0"
edition = "2021"
publish = false

[dependencies]
async-trait = "0.1"
chrono = { version = "0.4", default-features = false, features = ["alloc", "std"] }
futures = { version = "0.3", default-features = false, features = ["alloc", "std", "async-await"] }
log = "0.4"
