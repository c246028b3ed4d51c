[package]
name = "credential_exchange_format"
version = "0.1.0"
edition = "2021"
publish = false

[dependencies]
chrono = "0.4"
data-encoding = "2"
jose-jwk = "*"
serde = { version = "1", features = ["derive"] }
serde_json = "1"
