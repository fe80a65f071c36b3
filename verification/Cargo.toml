[package]
name = "sendme-worker"
version = "0.1.0"
edition = "2021"
publish = false

[dependencies]
anyhow = "1"
flume = "0.11"
iroh-base = { version = "0.13", features = ["key"] }
tokio = { version = "1", features = ["rt-multi-thread"] }
