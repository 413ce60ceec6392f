[package]
name = "coolcat_nft"
version = "0.1.0"
edition = "2021"
publish = false

[dependencies]
sha2 = "0.10"
url = "2"
cosmwasm-std = "1.5"
cosmwasm-schema = "1.5"
cw-storage-plus = "1"
cw-utils = "1"
cw-ownable = "0.5"
cw2 = "1"
cw721 = "0.18"
cw721-base = "0.18"
serde = { version = "1", features = ["derive"] }
schemars = "0.8"
thiserror = "1"
