[package]
name = "elevate"
version = "0.1.0"
edition = "2021"
publish = false

[dependencies]
uuid = { version = "=1.29.0", features = ["v4", "serde"] }
password-auth = "=1.0.0"
axum = "=0.7.9"
axum-login = "=0.16.0"
tower-sessions = { version = "=0.13.0", features = ["signed"] }
tower-sessions-redis-store = "=0.14.0"
sqlx = { version = "=0.8.6", default-features = false, features = ["runtime-tokio", "postgres", "uuid", "chrono"] }
tokio = { version = "=1.54.1", features = ["full"] }
serde = { version = "=1.0.229", features = ["derive"] }
serde_json = "=1.0.154"
chrono = { version = "=0.4.45", features = ["serde"] }
tracing = "=0.1.44"
tracing-subscriber = { version = "=0.3.23", features = ["env-filter"] }
bb8 = "=0.8.6"
bb8-redis = "=0.17.0"
redis = "=0.27.6"
async-trait = "=0.1.92"
