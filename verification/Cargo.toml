[package]
name = "local_dev_insights"
version = "0.1.0"
edition = "2021"
publish = false

[dependencies]
anyhow = "1"
dotenv = "0.15"
serde = { version = "1", features = ["derive"] }
serde_json = "1"
sqlx = { version = "0.7", default-features = false, features = ["runtime-tokio", "sqlite", "macros"] }
sysinfo = "0.30"
tokio = { version = "1", features = ["io-std", "io-util", "macros", "rt-multi-thread"] }
walkdir = "2"
