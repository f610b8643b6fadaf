[package]
name = "confidential_cli"
version = "0.1.0"
edition = "2021"
publish = false

[dependencies]
anyhow = "1"
bytemuck = "1"
clap = { version = "4", features = ["derive"] }
solana-sdk = "2"
spl-token-2022 = "8"
spl-token-confidential-transfer-proof-extraction = "0.3"
tokio = { version = "1", features = ["full"] }
