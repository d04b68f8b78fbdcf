[package]
name = "ledger_core"
version = "0.1.0"
edition = "2021"
publish = false

[dependencies]
anchor-lang = "0.31"
anyhow = "1"
solana-sdk = "2"
spl-associated-token-account = "7"
spl-token-2022 = "8"
