[package]
name = "btc_balance"
version = "0.1.0"
edition = "2021"
publish = false

[dependencies]
bitcoin = "0.29"
secp256k1 = { version = "0.24", features = ["rand-std"] }
rand = "0.8"
reqwest = { version = "0.11", features = ["json"] }
serde = { version = "1", features = ["derive"] }
tokio = { version = "1", features = ["full"] }
