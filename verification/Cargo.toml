[package]
name = "librtlsdr_rs"
version = "0.2.0"
edition = "2021"
publish = false

[dependencies]
rusb = "0.9"
thiserror = "2"
tokio = { version = "1", features = ["rt", "sync"] }
async-channel = "2"
blocking = "1"
futures-core = "0.3"
tracing = "0.1"
