[package]
name = "cache_proxy"
version = "0.1.0"
edition = "2021"
publish = false

[dependencies]
axum = "0.8"
bytes = "1"
regex = "1"
reqwest = { version = "0.12", default-features = false, features = ["deflate", "gzip", "rustls-tls"] }
tokio = { version = "1", features = ["fs", "macros", "net", "rt-multi-thread", "sync"] }
tracing = "0.1"
tracing-subscriber = "0.3"
