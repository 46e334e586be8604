[package]
name = "jb_http_cache"
version = "0.1.0"
edition = "2021"
publish = false

[dependencies]
async-compression = { version = "0.4", features = ["tokio", "brotli"] }
axum = "0.8"
color-eyre = "0.6"
fd-lock = "4"
regex = "1.12"
reqwest = { version = "0.12", default-features = false, features = ["rustls-tls"] }
serde = { version = "1", features = ["derive"] }
serde_json = "1"
tokio = { version = "1", features = ["fs", "io-util", "rt"] }
tracing = "0.1"
