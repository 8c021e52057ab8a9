[package]
name = "rustier_auth"
version = "0.1.0"
edition = "2021"
publish = false

[dependencies]
bcrypt = "*"
uuid = { version = "1", features = ["v4"] }
rand = "0.8"
chrono = "0.4"
axum = { version = "0.8", features = ["multipart"] }
tokio = { version = "1", features = ["macros", "rt-multi-thread", "net"] }
tower-cookies = "*"
serde = { version = "1", features = ["derive"] }
serde_json = "1"
