[package]
name = "upload_gateway"
version = "0.1.0"
edition = "2021"
publish = false

[dependencies]
multer = "2"
axum = "0.6"
clap = { version = "4", features = ["derive"] }
futures-util = "0.3"
gcp_auth = "0.9"
google-drive = "0.10"
serde = { version = "1", features = ["derive"] }
tokio = { version = "1", features = ["full"] }
tracing = "0.1"
tracing-subscriber = "0.3"
