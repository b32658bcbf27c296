[package]
name = "calculator_program"
version = "0.1.0"
edition = "2021"
publish = false

[dependencies]
borsh = { version = "*", features = ["derive"] }
solana-program = "*"
