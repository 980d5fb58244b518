[package]
name = "vault_contract"
version = "0.1.0"
edition = "2021"
publish = false

[dependencies]
near-sdk = { version = "=5.29.1", default-features = false, features = ["non-contract-usage", "legacy"] }
near-contract-standards = "=5.29.1"
