[package]
name = "contract_interface"
version = "0.1.0"
edition = "2021"
publish = false

[dependencies]
near-sdk = { version = "=5.29.1", features = ["non-contract-usage"] }
proc-macro2 = "=1.0.107"
quote = "=1.0.47"
serde_json = "=1.0.154"
syn = { version = "=1.0.109", features = ["full"] }

[dev-dependencies]
borsh = "=1.8.1"
