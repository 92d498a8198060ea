[package]
name = "bullhorn"
version = "0.1.0"
edition = "2021"
publish = false

[dependencies]
anyhow = "*"
config = "*"
dirs = "*"
dotenvy = "*"
env_logger = "*"
humantime = "*"
log = "*"
nostr-sdk = "*"
qrcode = "*"
reqwest = { version = "*", default-features = false, features = ["rustls-tls"] }
serde = { version = "*", features = ["derive"] }
tokio = { version = "*", features = ["full"] }
tokio-util = { version = "*", features = ["rt"] }
uuid = { version = "*", features = ["v4"] }
