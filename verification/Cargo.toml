[package]
name = "auction_sdk"
version = "0.1.0"
edition = "2021"
publish = false

[dependencies]
solana-sdk = "=2.3.1"
solana-system-interface = "=1.0.0"
solana-vote-interface = "=2.2.6"
