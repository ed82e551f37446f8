[package]
name = "signed_compare"
version = "0.1.0"
edition = "2021"
publish = false

[dependencies]
cosmwasm-std = "~1.4"
cosmwasm-storage = "~1.4"
serde = { version = "1", features = ["derive"] }
schemars = "0.8"

[dev-dependencies]
ed25519-dalek = "2"
