[package]
name = "estate_staking"
version = "0.1.0"
edition = "2021"
publish = false

[dependencies]
base64 = "0.13"
cosmwasm-std = "1.5"
cw-storage-plus = "1.2"
cw20 = "1.1"
cw721 = "0.18"
cw721-base = { version = "0.18", features = ["library"] }
rand_chacha = { version = "0.3", default-features = false }
rand_core = { version = "0.6", default-features = false }
schemars = "0.8"
serde = { version = "1", default-features = false, features = ["derive"] }
sha2 = { version = "0.10", default-features = false }
thiserror = "1"
