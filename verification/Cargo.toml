[package]
name = "smt"
version = "0.1.0"
edition = "2021"
publish = false

[dependencies]
anyhow = "1"
async-compat = "0.2"
chrono = "0.4"
futures = "0.3"
image = { version = "=0.25.10", default-features = false, features = ["png"] }
moka = { version = "=0.12.16", features = ["sync"] }
ncm-api-rs = "0.1"
qrcode-generator = { version = "=5.0.0", default-features = false }
rand = "=0.8.8"
reqwest = { version = "0.12", default-features = false }
rodio = { version = "0.20", default-features = false }
serde = { version = "1", features = ["derive"] }
serde_json = "=1.0.154"
tokio = { version = "1", features = ["fs", "io-util", "rt", "sync", "time"] }
