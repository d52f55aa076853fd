[package]
name = "satellite_registry"
version = "0.1.0"
edition = "2021"
publish = false

[dependencies]
axum = "=0.8.9"
base64 = "*"
bs58 = "=0.5.1"
serde = { version = "=1.0.229", features = ["derive"] }
serde_json = "*"
solana-sdk = "=2.3.1"
tokio = { version = "=1.53.2", features = ["rt-multi-thread", "macros"] }
ureq = { version = "*", features = ["json"] }
uuid = { version = "=1.27.0", features = ["v4"] }
