[package]
name = "launchpad"
version = "0.1.0"
edition = "2021"
publish = false

[dependencies]
cosmwasm-schema = "1.5"
cosmwasm-std = "1.5"
cw2 = "1.1"
cw-ownable = "0.5"
cw-storage-plus = "1.2"
cw-utils = "1.0"
hex = "0.4"
sha2 = "0.10"
thiserror = "1"
