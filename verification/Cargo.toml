[package]
name = "eve_sde"
version = "0.1.0"
edition = "2021"
publish = false

[dependencies]
anyhow = "1"
bytes = "1"
csv = "1"
futures = "0.3"
http-cache-reqwest = "0.15"
reqwest = { version = "0.12", default-features = false, features = ["rustls-tls", "stream"] }
reqwest-middleware = "0.4"
reqwest-retry = "0.7"
reqwest-tracing = "0.5"
serde_json = "1"
tokio = { version = "1", features = ["io-util"] }
tokio-util = { version = "0.7", features = ["io"] }
tracing = "0.1"
url = "2"
