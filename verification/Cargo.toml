[package]
name = "pinocchio_stake"
version = "0.1.0"
edition = "2021"
publish = false

[dependencies]
pinocchio = "0.9"
pinocchio-pubkey = "0.3"
bincode = "1.3"
serde = { version = "1", features = ["derive"] }
