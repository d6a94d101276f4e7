[package]
name = "yt_point"
version = "0.1.0"
edition = "2021"
publish = false

[dependencies]
serde_json = "*"
url = "*"
serde = { version = "*", features = ["derive"] }
toml = "*"
directories = "*"
tokio = { version = "*", features = ["full"] }
axum = "*"
tower-http = { version = "*", features = ["cors"] }
tokio-stream = { version = "*", features = ["sync"] }
futures = "*"
