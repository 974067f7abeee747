[package]
name = "openrgb2"
version = "0.1.0"
edition = "2021"
publish = false

[dependencies]
tokio = { version = "1", features = ["net", "io-util", "sync"] }
tracing = "0.1"
