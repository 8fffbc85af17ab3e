[package]
name = "nft_mint"
version = "0.1.0"
edition = "2021"
publish = false

[dependencies]
solana-program = "=2.3.0"
spl-token = "=7.0.0"
spl-associated-token-account = "=6.0.0"
