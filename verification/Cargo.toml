[package]
name = "pool_fetch"
version = "0.1.0"
edition = "2021"
publish = false

[dependencies]
solana-sdk = { version = "*", default-features = false }
spl-associated-token-account = { version = "*", default-features = false }
serde = { version = "*", features = ["derive"] }
serde_json = "*"

[dev-dependencies]
spl-token = { version = "*", default-features = false }
