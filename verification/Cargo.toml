[package]
name = "plugind"
version = "0.1.0"
edition = "2021"
publish = false

[dependencies]
httparse = "=1.10.1"
serde_json = "=1.0.154"
uuid = { version = "=1.29.0", features = ["v4"] }
jwt-simple = { version = "=0.15.0", default-features = false, features = ["pure-rust"] }
serde = { version = "=1.0.229", features = ["derive"] }
anyhow = "=1.0.104"
futures = "=0.3.34"
tokio = { version = "=1.54.1", features = ["full"] }
axum = { version = "=0.8.9", features = ["multipart"] }
libloading = "=0.8.9"
minio = "=0.4.0"
clap = { version = "=4.6.7", features = ["derive"] }
reqwest = { version = "=0.12.28", default-features = false, features = ["blocking", "multipart", "rustls-tls"] }
toml = "=0.5.11"
