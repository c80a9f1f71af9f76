[package]
name = "solana_token_tracker"
version = "0.1.0"
edition = "2021"
publish = false

[dependencies]
anyhow = "=1.0.104"
bs58 = "=0.5.1"
prost = "=0.11.9"
serde = { version = "=1.0.229", features = ["derive"] }
serde_qs = "=0.12.0"
substreams = "=0.5.22"
substreams-solana = "=0.13.0"
substreams-solana-program-instructions = "=0.1.1"
