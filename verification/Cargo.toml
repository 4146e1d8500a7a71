[package]
name = "rmcp"
version = "0.4.0"
edition = "2021"
publish = false

[dependencies]
anyhow = "=1.0.104"
async-trait = "=0.1.92"
axum = "=0.8.9"
base64 = "=0.22.1"
chrono = "=0.4.45"
clap = { version = "=4.6.7", features = ["derive"] }
nix = { version = "=0.28.0", features = ["term", "fs"] }
rand = "=0.9.5"
reedline = "=0.52.1"
reqwest = { version = "=0.12.28", default-features = false, features = ["json", "rustls-tls"] }
serde = { version = "=1.0.229", features = ["derive"] }
serde_json = "=1.0.154"
serde_yaml = "=0.9.34"
sha2 = "=0.10.9"
thiserror = "=2.0.21"
tokio = { version = "=1.54.1", features = ["full"] }
tracing-subscriber = "=0.3.23"
url = "=2.5.8"
