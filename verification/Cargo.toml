[package]
name = "handoff"
version = "0.1.0"
edition = "2021"
publish = false

[dependencies]
cosmwasm-std = "1.5"
cosmwasm-storage = "1.5"
schemars = "0.8"
serde = { version = "1", features = ["derive"] }
