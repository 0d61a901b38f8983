[package]
name = "sonic_ai_infra"
version = "0.1.0"
edition = "2021"
publish = false

[dependencies]
borsh = "0.10"
solana-program = "1.18"
thiserror = "1.0"
