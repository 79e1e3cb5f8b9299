[package]
name = "melange_mint"
version = "0.1.0"
edition = "2021"
publish = false

[dependencies]
cosmwasm-std = "1.5"
cosmwasm-storage = "1.5"
cw20 = "1.1"
schemars = "0.8"
sei-cosmwasm = "*"
serde = { version = "1", default-features = false, features = ["derive"] }
