[package]
name = "taskboard"
version = "0.1.0"
edition = "2021"
publish = false

[dependencies]
rust-argon2 = "2"
rand = "0.8"
jsonwebtoken = "9"
chrono = "0.4"
axum = "0.8"
axum-extra = { version = "0.10", features = ["typed-header"] }
tokio = { version = "1", features = ["macros", "rt-multi-thread", "net"] }
serde = { version = "1", features = ["derive"] }
sqlx = { version = "0.8", default-features = false, features = ["runtime-tokio", "sqlite", "migrate"] }
tracing = "0.1"
tracing-subscriber = "0.3"
dotenvy = "0.15"
anyhow = "1"
