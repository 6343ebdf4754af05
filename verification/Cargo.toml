[package]
name = "trade_escrow"
version = "0.1.0"
edition = "2021"
publish = false

[dependencies]
borsh = "0.10"
chainlink_solana = "1.0.0"
solana-program = "1.18"
thiserror = "1"
