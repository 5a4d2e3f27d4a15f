[package]
name = "altushka_bot"
version = "0.1.0"
edition = "2021"
publish = false

[dependencies]
uuid = { version = "1", features = ["v4"] }
serde = { version = "1", features = ["derive"] }
serde_json = "1"
rust-tdlib = { version = "*", default-features = false }
base64 = "0.22"
rand = "0.9"
tokio = { version = "1", features = ["full"] }
tokio-postgres = { version = "0.7", features = ["with-uuid-1"] }
deadpool-postgres = "0.14"
deadpool = "0.12"
reqwest = { version = "0.12", default-features = false, features = ["json", "rustls-tls"] }
clap = { version = "4", features = ["cargo"] }
colored = "2"
chrono = "0.4"
dotenvy = "0.15"
env_logger = "0.11"
log = "0.4"
anyhow = "1"
async-trait = "0.1"
lazy_static = "1"
qrcode = "0.14"
image = { version = "0.25", default-features = false, features = ["png"] }
ollama-rs = "0.2"
pgvector = { version = "0.4", features = ["postgres"] }
