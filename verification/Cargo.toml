[package]
name = "dynerror"
version = "0.1.0"
edition = "2021"
publish = false

[dependencies]
axum = { version = "*", features = ["multipart"] }
base64 = "*"
chrono = { version = "*", default-features = false, features = ["std"] }
clap = { version = "*", features = ["derive"] }
config = { version = "*", default-features = false, features = ["toml"] }
rust-s3 = { version = "*", default-features = false, features = ["tokio-rustls-tls"] }
serde = { version = "*", features = ["derive"] }
serde_json = "*"
tokio = { version = "*", features = ["full"] }
tokio-util = { version = "*", features = ["io"] }
tracing = "*"
tracing-subscriber = { version = "*", features = ["env-filter"] }
