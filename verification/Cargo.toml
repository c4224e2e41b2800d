[package]
name = "archway_simple_storage"
version = "0.1.0"
edition = "2021"
publish = false

[dependencies]
cosmwasm-std = "*"
cw-storage-plus = "*"
cosmwasm-schema = "*"
schemars = "*"
serde = { version = "*", features = ["derive"] }
