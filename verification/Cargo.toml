[package]
name = "web_be"
version = "0.1.0"
edition = "2021"
publish = false

[dependencies]
argon2 = "=0.5.3"
jsonwebtoken = "=9.3.1"
sha2 = "=0.10.9"
base64 = "=0.22.1"
validator = "=0.21.0"
chrono = { version = "=0.4.45", features = ["serde"] }
uuid = { version = "=1.27.0", features = ["v4", "serde"] }
serde = { version = "1", features = ["derive"] }
serde_json = "1"
axum = { version = "=0.8.9", features = ["multipart"] }
axum-extra = { version = "=0.12.6", features = ["cookie"] }
tokio = { version = "1", features = ["rt-multi-thread", "macros", "net"] }
sqlx = { version = "=0.8.6", default-features = false, features = ["postgres", "runtime-tokio", "chrono", "uuid"] }
dotenvy = "0.15"
tower-http = { version = "0.6", features = ["cors", "trace"] }
tower_governor = "=0.8.0"
governor = "=0.10.4"
tracing = "0.1"
tracing-subscriber = { version = "0.3", default-features = false, features = ["fmt"] }
tokio-cron-scheduler = "=0.15.1"
aws-sdk-s3 = { version = "1", default-features = false, features = ["rt-tokio"] }
time = "0.3"
image = { version = "0.25", default-features = false, features = ["jpeg", "png", "gif", "webp"] }
