[package]
name = "escrow_token_mint"
version = "0.1.0"
edition = "2021"
publish = false

[dependencies]
anchor-lang = "*"
anchor-spl = "*"
spl-token = { version = "*", features = ["no-entrypoint"] }
