[package]
name = "token_purchaser"
version = "0.1.0"
edition = "2021"
publish = false

[dependencies]
ethabi = "18.0.0"
cosmwasm-std = "2"
cosmwasm-schema = "2"
cw2 = "2"
cw-storage-plus = "2"
schemars = "0.8"
serde = { version = "1", features = ["derive"] }
