[package]
name = "eterra_vault"
version = "0.1.0"
edition = "2021"
publish = false

[dependencies]
cosmwasm-bignumber = "1.0"
cosmwasm-std = "0.10"
cosmwasm-storage = "0.10"
cw20 = "0.2"
schemars = "0.7"
serde = { version = "1.0", default-features = false, features = ["derive"] }
terra-cosmwasm = "1.2"
terraswap = "1.1"
