[package]
name = "worker_coordinator"
version = "0.1.0"
edition = "2021"
publish = false

[dependencies]
tokio = { version = "1", default-features = false, features = ["sync"] }
tonic = "0.12"
uaparser = "0.6"
