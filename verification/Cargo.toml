[package]
name = "remitwise"
version = "0.1.0"
edition = "2021"
publish = false

[dependencies]
soroban-sdk = "21"
sha2 = "0.10"
base64 = "0.22"
serde = { version = "1", features = ["derive"] }
serde_json = "1"
bincode = "1"
csv = "1"
