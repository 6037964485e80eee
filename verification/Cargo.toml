[package]
name = "shard_store"
version = "0.1.0"
edition = "2021"
publish = false

[dependencies]
http = "0.2"
prost = "0.6"
tokio = { version = "0.2", features = ["macros", "rt-threaded"] }
tonic = "0.1"
tonic-build = "0.1"
