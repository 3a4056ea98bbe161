[package]
name = "hayabusa"
version = "0.1.0"
edition = "2021"
publish = false

[dependencies]
solana-address = { version = "=2.9.0", features = ["curve25519", "decode"] }
solana-account-view = "=2.1.0"
solana-instruction-view = { version = "=2.1.0", features = ["cpi"] }
solana-program-error = "=3.0.1"
pinocchio = { version = "=0.11.2", features = ["cpi"] }
bytemuck = "=1.25.2"
anyhow = "=1.0.104"
clap = { version = "=4.6.7", features = ["derive"] }
syn = { version = "=2.0.119", features = ["full"] }
quote = "=1.0.47"
proc-macro2 = "=1.0.107"
heck = "=0.5.0"
