[package]
name = "handy"
version = "0.1.0"
edition = "2021"
publish = false

[dependencies]
handy-keys = "*"
reqwest = { version = "0.12", default-features = false, features = ["multipart", "json", "rustls-tls"] }
tokio = { version = "1", features = ["rt", "time", "macros"] }
tokio-tungstenite = "0.26"
futures-util = { version = "0.3", features = ["sink"] }
serde = { version = "1", features = ["derive"] }
serde_json = "1"
log = "0.4"
anyhow = "1"
