[package]
name = "agent_contract"
version = "0.1.0"
edition = "2021"
publish = false

[dependencies]
dcap-qvl = { version = "=0.4.0", default-features = false, features = ["contract", "borsh", "std", "ring", "default-x509"] }
near-sdk = { version = "=5.28.0", features = ["non-contract-usage"] }
shade-attestation = "=0.1.1"
