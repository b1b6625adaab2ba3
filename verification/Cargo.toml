[package]
name = "risingwave"
version = "0.1.0"
edition = "2021"
publish = false

[dependencies]
async-trait = "0.1"
futures = "0.3"
itertools = "0.10"
parking_lot = "0.12"
tokio = { version = "1", features = ["rt", "sync", "time", "macros"] }
tonic = { version = "0.7", default-features = false }
tracing = "0.1"
