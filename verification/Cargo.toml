[package]
name = "vortex_contracts"
version = "0.1.0"
edition = "2021"
publish = false

[dependencies]
solana-program = "*"
borsh = "*"
base64 = "0.13"
