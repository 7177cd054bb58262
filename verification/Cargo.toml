[package]
name = "pool_details"
version = "0.1.0"
edition = "2021"
publish = false

[dependencies]
near-sdk = { version = "=5.29.1", features = ["unit-testing", "legacy"] }
serde = "1"
serde_json = "1"
