[package]
name = "registration"
version = "0.1.0"
edition = "2021"
publish = false

[dependencies]
axum = { version = "*", features = ["multipart"] }
axum-macros = "*"
base32 = "=0.5.1"
config = "*"
eyre = "*"
rand = "=0.8.8"
redis = { version = "*", features = ["tokio-comp"] }
secrecy = { version = "*", features = ["serde"] }
serde = { version = "*", features = ["derive"] }
sqlx = { version = "*", features = ["postgres"] }
time = { version = "*", features = ["serde"] }
tracing = "*"
uuid = { version = "*", features = ["v4", "serde"] }
