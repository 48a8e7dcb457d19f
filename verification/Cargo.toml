[package]
name = "messaging_nats_invoker"
version = "0.1.0"
edition = "2021"
publish = false

[dependencies]
anyhow = "1"
async-nats = "0.33"
base64 = "0.21"
futures = "0.3"
serde_json = "1"
tokio = { version = "1", features = ["rt", "sync", "macros"] }
tracing = "0.1"
