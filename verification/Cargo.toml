[package]
name = "hello_dao"
version = "0.1.0"
edition = "2021"
publish = false

[dependencies]
solana-program = "2.3"
solana-system-interface = { version = "1", features = ["bincode"] }

[dev-dependencies]
borsh = "1.5"
