[package]
name = "plasma_amm_sdk"
version = "0.1.0"
edition = "2021"
publish = false

[dependencies]
solana-program = "1.18"
borsh = "0.10.4"
bytemuck = { version = "=1.25.2", features = ["derive"] }
num_enum = "=0.7.6"
shank = "=0.4.9"
