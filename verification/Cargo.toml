[package]
name = "hwid_core"
version = "0.1.0"
edition = "2021"
publish = false

[dependencies]
anyhow = "*"
tokio = { version = "*", features = ["fs", "sync", "rt-multi-thread"] }
tonic = "*"
tonic-types = "*"
tracing-subscriber = "*"
