[package]
name = "post_service"
version = "0.1.0"
edition = "2021"
publish = false

[dependencies]
axum = "=0.6.20"
chrono = { version = "=0.4.45", features = ["serde"] }
futures = "=0.3.34"
mongodb = { version = "=2.8.2", features = ["bson-chrono-0_4"] }
serde = { version = "=1.0.229", features = ["derive"] }
serde_json = "=1.0.154"
tokio = { version = "=1.54.1", features = ["full"] }
