[package]
name = "account_store"
version = "0.1.0"
edition = "2021"
publish = false

[dependencies]
bumpalo = "3"
solana-program = "1.16"
solana-sdk = "1.16"
spl-token = { version = "3.5", features = ["no-entrypoint"] }
