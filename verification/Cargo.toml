[package]
name = "rate_policy"
version = "0.1.0"
edition = "2021"
publish = false

[dependencies]
anyhow = "1"
leaky-bucket = "0.10"
log = "0.4"
tokio = { version = "1", features = ["rt", "rt-multi-thread", "sync", "time"] }
