[package]
name = "electrs_query"
version = "0.1.0"
edition = "2021"
publish = false

[dependencies]
bitcoin = "=0.29.1"
bitcoin-address = "=0.1.5"
bitcoin-bech32 = "=0.12.1"
bitcoin-utils = "=0.1.3"
electrum-client = "=0.12.1"
hex-utilities = "=0.1.5"
serde_json = "=1.0.151"
