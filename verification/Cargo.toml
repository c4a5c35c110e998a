[package]
name = "perps"
version = "0.1.0"
edition = "2021"
publish = false

[dependencies]
solana-program = "=5.1.0"
borsh = "=1.8.1"
solana-system-interface = { version = "=3.3.0", features = ["bincode"] }
