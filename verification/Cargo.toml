[package]
name = "bounded_cache"
version = "0.1.0"
edition = "2021"
publish = false

[dependencies]
dashmap = "=5.5.3"
httparse = "=1.10.1"
num_cpus = "=1.17.0"
parking_lot = "=0.12.5"
tokio = { version = "=1.54.1", features = ["net", "rt-multi-thread", "io-util"] }
