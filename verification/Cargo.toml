[package]
name = "global_stats"
version = "0.1.0"
edition = "2021"
publish = false

[dependencies]
chrono = "0.4"
axum = "0.6"
tokio = { version = "1", features = ["full"] }
mongodb = "2"
serde = { version = "1", features = ["derive"] }
serde_json = "1"
futures = "0.3"
