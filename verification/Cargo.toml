[package]
name = "coinbase_pro_one_rs"
version = "0.1.0"
edition = "2021"
publish = false

[dependencies]
base64 = "0.13"
chrono = "=0.4.45"
rust-crypto = "0.2"
serde = { version = "=1.0.229", features = ["derive"] }
serde_json = "=1.0.151"
