[package]
name = "shade_attestation"
version = "0.1.0"
edition = "2021"
publish = false

[dependencies]
dcap-qvl = { version = "=0.5.3", default-features = false, features = ["std", "rustcrypto", "default-x509"] }
hex = "=0.4.3"
sha2 = "=0.10.9"
near-sdk = { version = "=5.29.1", features = ["non-contract-usage"] }
serde = { version = "=1.0.229", features = ["derive"] }
serde_json = "=1.0.154"
borsh = { version = "=1.8.1", features = ["derive", "unstable__schema"] }
derive_more = { version = "=2.1.1", features = ["from", "into", "deref"] }
schemars = "=1.2.3"
