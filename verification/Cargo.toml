[package]
name = "auth_service"
version = "0.1.0"
edition = "2021"
publish = false

[dependencies]
validator = "=0.21.0"
uuid = { version = "=1.27.0", features = ["v4"] }
rand = "=0.10.3"
chrono = "=0.4.45"
jsonwebtoken = { version = "=11.1.0", default-features = false, features = ["rust_crypto"] }
serde_json = "=1.0.151"
serde = { version = "=1.0.229", features = ["derive"] }
axum = "=0.8.9"
axum-extra = { version = "=0.12.6", features = ["cookie"] }
tokio = { version = "=1.53.2", features = ["rt-multi-thread", "macros", "net", "sync"] }
