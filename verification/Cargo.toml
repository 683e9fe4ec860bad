[package]
name = "meteora"
version = "0.1.0"
edition = "2021"
publish = false

[dependencies]
bs58 = "*"
substreams = "*"
substreams-solana = "*"
prost = "*"
