[package]
name = "commit_wrapper"
version = "0.1.0"
edition = "2021"
publish = false

[dependencies]
arrayvec = "0.7"
borsh = { version = "1", features = ["derive"] }
bytemuck = { version = "1", features = ["derive"] }
pinocchio = "0.9"
pinocchio-pubkey = "0.3"
pinocchio-system = "0.3"
pinocchio-token = "0.4"
solana-sdk = { version = "2.2", default-features = false }
