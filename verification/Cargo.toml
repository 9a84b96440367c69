[package]
name = "campaign_rewards"
version = "0.1.0"
edition = "2021"
publish = false

[dependencies]
sha2 = "=0.10.9"
bs58 = "=0.5.1"
ed25519-dalek = "=2.2.0"
near-sdk = { version = "=5.29.1", features = ["non-contract-usage"] }
near-contract-standards = "=5.29.1"
