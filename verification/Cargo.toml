[package]
name = "sol_ver"
version = "0.1.0"
edition = "2021"
publish = false

[dependencies]
light-hasher = { version = "=7.0.0", features = ["keccak"] }
pinocchio = "=0.11.2"
pinocchio-system = "=0.6.1"
pinocchio-token = "=0.7.0"
solana-pubkey = { version = "=4.4.0", features = ["curve25519"] }
