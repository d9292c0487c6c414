[package]
name = "nft_mint"
version = "0.1.0"
edition = "2021"
publish = false

[dependencies]
secret-cosmwasm-std = "=0.10.1"
secret-cosmwasm-storage = "=0.10.0"
rand = "=0.7.3"
schemars = "=0.7.6"
serde = { version = "=1.0.229", default-features = false, features = ["derive"] }
secret-toolkit = "=0.3.0"
