[package]
name = "domains"
version = "0.1.0"
edition = "2021"
publish = false

[dependencies]
chrono = "0.4"
serde = { version = "1", features = ["derive"] }
serde_json = "1"
reqwest = { version = "0.12", default-features = false, features = ["json"] }
tokio = { version = "1", features = ["rt-multi-thread", "macros"] }
axum = "0.7"
maud = "*"
tower-cookies = "*"
jsonwebtoken = "9"
sqlx = { version = "0.8", default-features = false, features = ["runtime-tokio", "postgres"] }
uuid = { version = "1", features = ["v4"] }
futures = "0.3"
