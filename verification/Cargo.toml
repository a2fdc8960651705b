[package]
name = "proofkit"
version = "0.1.0"
edition = "2021"
publish = false

[dependencies]
cosmwasm-std = "2.2"
cosmwasm-schema = "2.2"
cw-storage-plus = "2.0"
cw2 = "2.0"
thiserror = "1.0"
