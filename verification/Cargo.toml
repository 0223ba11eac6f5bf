[package]
name = "watchtower_retry"
version = "0.1.0"
edition = "2021"
publish = false

[dependencies]
backoff = { version = "0.4.0", features = ["tokio"] }
log = "0.4"
tokio = { version = "1", features = ["rt", "sync", "time"] }
