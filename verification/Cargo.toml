[package]
name = "aliens_staking"
version = "0.1.0"
edition = "2021"
publish = false

[dependencies]
cosmwasm-schema = "1"
cosmwasm-std = "1"
cw2 = "1"
cw20 = "1"
cw721 = "0.18"
cw-storage-plus = "1"
cw-utils = "1"
thiserror = "1"
