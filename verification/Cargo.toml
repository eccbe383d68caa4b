[package]
name = "authgate"
version = "0.1.0"
edition = "2021"
publish = false

[dependencies]
serde_json = "=1.0.151"
jsonwebtoken = { version = "=11.1.0", features = ["rust_crypto"] }
serde = { version = "=1.0.229", features = ["derive"] }
axum = "=0.8.9"
tokio = { version = "=1.53.2", features = ["rt-multi-thread", "macros", "sync", "time"] }
reqwest = { version = "=0.12.28", default-features = false, features = ["rustls-tls"] }
tower-http = { version = "=0.6.11", features = ["cors"] }

[dev-dependencies]
base64 = "=0.22.1"
rsa = "=0.9.10"
