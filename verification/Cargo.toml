[package]
name = "message_board"
version = "0.1.0"
edition = "2021"
publish = false

[dependencies]
solana-program = "=2.1.21"
spl-token = { version = "=6.0.0", features = ["no-entrypoint"] }

[dev-dependencies]
borsh = "=1.8.1"
