[package]
name = "sculptor"
version = "0.1.0"
edition = "2021"
publish = false

[dependencies]
anyhow = "1"
axum = { version = "0.7", features = ["ws"] }
chrono = "0.4"
dashmap = "5.5"
fern = { version = "0.6", features = ["colored"] }
log = "0.4"
tokio = { version = "1", features = ["full"] }
toml = "0.8"
tower-http = { version = "0.5", features = ["trace"] }
uuid = { version = "1", features = ["v4"] }
