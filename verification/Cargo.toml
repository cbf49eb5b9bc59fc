[package]
name = "clinic"
version = "0.1.0"
edition = "2021"
publish = false

[dependencies]
argon_hash_password = "*"
axum = "0.6"
chrono = "0.4"
dotenvy = "0.15"
jsonwebtoken = "8"
serde = { version = "1", features = ["derive"] }
serde_json = { version = "1", features = ["preserve_order"] }
sqlx = { version = "0.6", features = ["runtime-tokio-rustls", "postgres", "chrono"] }
tokio = { version = "1", features = ["full"] }
tower-http = { version = "0.4", features = ["cors"] }
tracing = "0.1"
tracing-subscriber = "0.3"
