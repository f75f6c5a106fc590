[package]
name = "epitelesis"
version = "1.0.0"
edition = "2021"
publish = false

[dependencies]
rustix = { version = "1", features = ["event", "fs", "process"] }
snafu = "0.8"
tokio = { version = "1", features = ["rt"] }
tracing = "0.1"
