[package]
name = "clemens"
version = "0.1.0"
edition = "2021"
publish = false

[dependencies]
rayon = "1"
serde = { version = "1", features = ["derive"] }
solana-sdk = "1.18"
solana-transaction-status = "1.18"
thiserror = "1"
tokio = { version = "1", default-features = false, features = ["macros", "rt-multi-thread", "sync", "time"] }
tracing = "0.1"
