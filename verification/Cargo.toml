[package]
name = "staking_hook"
version = "0.1.0"
edition = "2021"
publish = false

[dependencies]
solana-pubkey = { version = "*", features = ["curve25519"] }
spl-tlv-account-resolution = "*"
spl-transfer-hook-interface = "*"
