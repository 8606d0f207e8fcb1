[package]
name = "affiliate_swap"
version = "0.1.0"
edition = "2021"
publish = false

[dependencies]
cosmwasm-schema = "1"
cosmwasm-std = { version = "1", features = ["stargate"] }
cw-storage-plus = "1"
cw-utils = "1"
cw2 = "1"
osmosis-std = "0.16"
thiserror = "1"
