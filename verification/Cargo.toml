[package]
name = "safrimba"
version = "0.1.0"
edition = "2021"
publish = false

[dependencies]
cosmwasm-std = "1.5"
serde = { version = "1.0", features = ["derive"] }
serde-json-wasm = "0.5"
schemars = "0.8"
