[package]
name = "whatsoo"
version = "0.1.0"
edition = "2021"
publish = false

[dependencies]
argon2 = "=0.2.4"
rand_core = { version = "=0.6.4", features = ["std"] }
jsonwebtoken = "=7.2.0"
serde = { version = "=1.0.229", features = ["derive"] }
serde_json = { version = "=1.0.154", features = ["preserve_order"] }
chrono = "=0.4.45"
uuid = { version = "=0.8.2", features = ["v4"] }
captcha = "=0.0.8"
axum = "=0.2.8"
tokio = { version = "=1.54.1", features = ["full"] }
tower = { version = "=0.4.13", features = ["full"] }
tower-http = { version = "=0.1.3", features = ["full"] }
redis = { version = "=0.21.8", features = ["r2d2"] }
r2d2 = "=0.8.10"
sqlx = { version = "0.7", default-features = false, features = ["mysql", "runtime-tokio-rustls", "chrono"] }
lettre = "=0.9.6"
lettre_email = "=0.9.4"
thiserror = "=1.0.69"
tracing = "=0.1.44"
tracing-subscriber = "=0.2.25"
dotenv = "=0.15.0"

[dev-dependencies]
regex = "=1.13.1"
