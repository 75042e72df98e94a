[package]
name = "authcore"
version = "0.1.0"
edition = "2021"
publish = false

[dependencies]
jsonwebtoken = { version = "=11.1.0", features = ["rust_crypto"] }
serde_json = "=1.0.151"
uuid = { version = "=1.27.0", features = ["serde"] }
chrono = { version = "=0.4.45", features = ["serde"] }
validator = { version = "=0.21.0", features = ["derive"] }
serde = { version = "=1.0.229", features = ["derive"] }
axum = "=0.8.9"
tokio = { version = "=1.53.2", features = ["rt-multi-thread", "macros", "net"] }
reqwest = { version = "=0.13.5", default-features = false, features = ["json"] }
sqlx = { version = "=0.9.0", default-features = false, features = ["runtime-tokio", "postgres", "uuid", "chrono", "json"] }
dotenvy = "=0.15.7"
tower-http = { version = "=0.7.1", features = ["cors"] }
log = "=0.4.34"
thiserror = "=2.0.21"
