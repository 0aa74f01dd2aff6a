[package]
name = "solana_donations"
version = "0.1.0"
edition = "2021"
publish = false

[dependencies]
anchor-lang = "=1.2.1"
solana-pubkey = { version = "=3.0.0", default-features = false, features = ["std", "curve25519"] }
