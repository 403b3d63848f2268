[package]
name = "counter"
version = "0.1.0"
edition = "2021"
publish = false

[dependencies]
anyhow = "1"
clap = { version = "4", features = ["derive"] }
serde_json = "1"
solana-sdk = "2"
tokio = { version = "1", features = ["macros", "rt-multi-thread"] }
