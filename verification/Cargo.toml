[package]
name = "attestation_agent"
version = "0.1.0"
edition = "2021"
publish = false

[dependencies]
aes-gcm = "0.9"
base64 = "0.13"
serde = { version = "1", features = ["derive"] }
serde_json = "1"
