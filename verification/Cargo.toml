[package]
name = "nest_protocol"
version = "0.1.0"
edition = "2021"
publish = false

[dependencies]
anchor-lang = { version = "=1.2.2", default-features = false, features = ["solana-v4", "derive", "init-if-needed"] }
anchor-spl = { version = "=1.2.2", default-features = false, features = ["token", "token_2022", "solana-v4"] }
pyth-lazer-solana-contract = { version = "=0.11.0", features = ["no-entrypoint", "cpi"] }
