[package]
name = "klovy_chat_server"
version = "0.1.0"
edition = "2021"
publish = false

[dependencies]
actix-web = "=4.18.1"
axum = { version = "0.8", features = ["ws"] }
chrono = "=0.4.45"
dotenvy = "=0.15.7"
env_logger = "=0.11.11"
futures-util = "=0.3.34"
http = "1"
jsonwebtoken = "=9.3.1"
log = "=0.4.35"
mongodb = "=3.9.1"
regex = "=1.13.1"
reqwest = { version = "=0.12.28", default-features = false, features = ["json", "rustls-tls"] }
serde = { version = "=1.0.229", features = ["derive"] }
serde_json = "=1.0.154"
tokio = { version = "=1.54.1", features = ["full"] }
tower-http = { version = "0.6", features = ["cors"] }
uuid = { version = "=1.29.0", features = ["v4"] }
