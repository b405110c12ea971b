[package]
name = "tx-service"
version = "0.1.0"
edition = "2021"
publish = false

[dependencies]
anyhow = "=1.0.104"
axum = "=0.8.9"
bcs = "=0.1.6"
chrono = "=0.4.45"
fastcrypto = "=0.1.11"
iota-sdk-types = { version = "=1.0.0-rc.2", features = ["hash", "serde"] }
serde_json = "=1.0.154"
tower-http = { version = "=0.6.11", features = ["cors"] }
