[package]
name = "fuego"
version = "0.1.0"
edition = "2021"
publish = false

[dependencies]
axum = { version = "0.7", default-features = false, features = ["http1", "json", "tokio"] }
base64 = "0.22"
bincode = "1"
dirs = "5"
serde = { version = "1", features = ["derive"] }
serde_json = "1"
solana-sdk = "2"
spl-associated-token-account = "7"
spl-memo = "6"
spl-token = "8"
tokio = { version = "1", features = ["macros", "net", "rt-multi-thread"] }
tower-http = { version = "0.5", features = ["cors"] }
