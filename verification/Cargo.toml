[package]
name = "cw-wager"
version = "0.1.0"
edition = "2021"
publish = false

[dependencies]
cosmwasm-schema = "=1.5.11"
cosmwasm-std = "=1.5.11"
cw-storage-plus = "=1.2.0"
cw-utils = "=1.0.3"
cw2 = "=1.1.2"
cw721-base = "0.18"
semver = "=1.0.28"
sg-std = "=3.2.0"
sg1 = "=3.15.0"
thiserror = "=1.0.69"
