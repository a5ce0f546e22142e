[package]
name = "deposit-cw20"
version = "0.1.0"
edition = "2021"
publish = false

[dependencies]
cosmwasm-std = "1"
cw-storage-plus = "1"
cw2 = "1"
cw20 = "1"
cw20-base = "1"
cw721 = "0.18"
schemars = "0.8"
serde = { version = "1", default-features = false, features = ["derive"] }
