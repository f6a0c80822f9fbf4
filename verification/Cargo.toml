[package]
name = "lambda_escrow"
version = "1.0.0"
edition = "2021"
publish = false

[dependencies]
anchor-lang = "=0.24.2"
anchor-spl = "=0.24.2"
spl-token = { version = "3.3.0", features = ["no-entrypoint"] }
