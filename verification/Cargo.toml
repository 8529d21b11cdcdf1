[package]
name = "chat_server"
version = "0.1.0"
edition = "2021"
publish = false

[dependencies]
anyhow = "=1.0.104"
argon2 = { version = "=0.5.3", features = ["std"] }
chrono = "=0.4.45"
content_disposition = "=0.4.0"
dotenv = "=0.15.0"
env_logger = "=0.10.2"
futures-util = "=0.3.34"
jsonwebtoken = "=9.3.1"
log = "=0.4.35"
mime = "=0.3.17"
mime_guess = "=2.0.5"
rand = "=0.8.8"
redis = { version = "=0.23.5", features = ["tokio-comp"] }
rocket = { version = "=0.5.2", features = ["json"] }
rocket-multipart = "=0.2.1"
serde = { version = "=1.0.229", features = ["derive"] }
serde_json = { version = "=1.0.154", features = ["raw_value"] }
sqlx = { version = "=0.7.4", features = ["runtime-tokio", "sqlite", "uuid"] }
tokio = { version = "=1.54.1", features = ["full"] }
tokio-tungstenite = "=0.26.2"
tungstenite = "=0.26.2"
uuid = { version = "=1.29.0", features = ["v4"] }
