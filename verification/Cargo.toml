[package]
name = "solana-validator-dao"
version = "0.1.0"
edition = "2021"
publish = false

[dependencies]
anchor-lang = "=0.29.0"
anchor-spl = { version = "=0.29.0", default-features = false, features = ["token"] }
solana-program = "=1.18.26"
spl-governance = { version = "=4.0.0", features = ["no-entrypoint"] }
solana-security-txt = "=1.1.3"
