[package]
name = "fusion_htlc"
version = "0.1.0"
edition = "2021"
publish = false

[dependencies]
sha2 = "=0.10.9"
hex = "=0.4.3"
serde = { version = "=1.0.229", features = ["derive"] }
serde_json = "=1.0.154"
schemars = "=0.8.22"
thiserror = "=1.0.69"
cosmwasm-std = { version = "=1.5.11", features = ["stargate"] }
cw2 = "=1.1.2"
cw-storage-plus = "=1.2.0"
near-sdk = { version = "=5.29.1", features = ["legacy", "unit-testing"] }
soroban-sdk = "=29.0.1"
soroban-token-sdk = "=29.0.1"
