[package]
name = "nexus"
version = "0.1.0"
edition = "2021"
publish = false

[dependencies]
anyhow = "1"
axum = "0.7"
axum_odbc = "*"
chrono = { version = "0.4", features = ["serde"] }
config = { version = "0.13", default-features = false, features = ["yaml"] }
dotenv = "0.15"
jsonwebtoken = "9"
metrics = "0.21"
redis = { version = "0.23", features = ["tokio-comp"] }
rust-argon2 = "2"
secrecy = { version = "0.8", features = ["serde"] }
serde = { version = "1", features = ["derive"] }
serde_json = "1"
sqlx = { version = "0.7", default-features = false, features = ["postgres", "runtime-tokio", "uuid", "chrono"] }
tera = { version = "1", default-features = false }
thiserror = "1"
tokio = { version = "1", features = ["full"] }
tower = { version = "0.4", features = ["timeout"] }
tower-http = { version = "0.5", features = ["cors", "trace"] }
tracing = "0.1"
tracing-subscriber = { version = "0.3", features = ["env-filter"] }
uuid = { version = "1", features = ["v4", "serde"] }
