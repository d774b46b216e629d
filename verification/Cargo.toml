[package]
name = "auth_service"
version = "0.1.0"
edition = "2021"
publish = false

[dependencies]
fancy-regex = "0.13"
uuid = { version = "1", features = ["v4"] }
rand = "0.8"
chrono = "0.4"
serde_json = "1"
serde = { version = "1", features = ["derive"] }
axum = "0.7"
axum-extra = { version = "0.9", features = ["cookie"] }
tokio = { version = "1", features = ["full"] }
tower-http = { version = "0.5", features = ["fs"] }
jsonwebtoken = "9"
secrecy = { version = "0.8", features = ["serde"] }
redis = "0.25"
sqlx = { version = "0.7", default-features = false, features = ["runtime-tokio", "postgres"] }
argon2 = { version = "0.5", features = ["std"] }
color-eyre = "0.6"
thiserror = "1"
tracing = "0.1"
async-trait = "0.1"
lazy_static = "1"
dotenvy = "0.15"
