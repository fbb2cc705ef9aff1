[package]
name = "conjunto"
version = "0.1.0"
edition = "2021"
publish = false

[dependencies]
solana-sdk = "=1.18.26"
bincode = "=1.3.3"
bs58 = "=0.4.0"
base64 = "=0.21.7"
serde = { version = "=1.0.229", features = ["derive"] }
serde_json = { version = "=1.0.151", features = ["raw_value"] }
jsonrpsee = { version = "=0.22.5", features = ["server", "http-client"] }
tokio = { version = "=1.53.2", features = ["rt-multi-thread", "macros", "net"] }
tokio-tungstenite = "=0.21.0"
futures-util = "=0.3.34"
async-trait = "=0.1.92"
thiserror = "=1.0.69"
url = "=2.5.8"
