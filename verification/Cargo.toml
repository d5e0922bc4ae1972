[package]
name = "pointer_ledger"
version = "0.1.0"
edition = "2021"
publish = false

[dependencies]
cosmwasm-std = "1.5"
cw2 = "1.1"
cw-storage-plus = "1.2"
schemars = "0.8"
serde = { version = "1.0", features = ["derive"] }
