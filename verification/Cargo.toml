[package]
name = "easy_fm"
version = "0.1.0"
edition = "2021"
publish = false

[dependencies]
uuid = { version = "*", features = ["v4"] }
serde = { version = "*", features = ["derive"] }
serde_json = "*"
clap = { version = "*", features = ["cargo"] }
home = "*"
toml = "*"
tokio = { version = "*", features = ["full"] }
rusqlite = { version = "*", features = ["bundled"] }
aws-sdk-s3 = "*"
tracing-subscriber = "*"
