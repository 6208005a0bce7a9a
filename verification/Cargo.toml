[package]
name = "tx_relay"
version = "0.1.0"
edition = "2021"
publish = false

[dependencies]
bitcoin = "0.31"
hex = "0.4"
lru = "0.12"
serde_json = "1"
anyhow = "1"
thiserror = "1"
reqwest = { version = "0.11", default-features = false, features = ["json"] }
tokio = { version = "1", features = ["full"] }
tokio-tungstenite = "0.20"
futures-util = "0.3"
tracing = "0.1"
tracing-subscriber = "0.3"
