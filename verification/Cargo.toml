[package]
name = "spider_worker"
version = "0.1.0"
edition = "2021"
publish = false

[dependencies]
bson = "2"
tokio = { version = "1", features = ["full"] }
axum = "0.6"
reqwest = { version = "0.11", default-features = false, features = ["json", "rustls-tls"] }
mongodb = "2"
serde = { version = "1", features = ["derive"] }
serde_json = "1"
bytes = "1"
futures = "0.3"
tower = "0.4"
tower-http = { version = "0.4", features = ["add-extension"] }
chrono = "0.4"
