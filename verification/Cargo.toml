[package]
name = "session_auth"
version = "0.1.0"
edition = "2021"
publish = false

[dependencies]
moka = { version = "0.12", features = ["sync"] }
uuid = { version = "1", features = ["v4"] }
serde_json = "1"
serde = { version = "1", features = ["derive"] }
actix-web = "4"
actix-cors = "*"
deadpool-postgres = "*"
tokio-postgres = "0.7"
tokio = { version = "1", features = ["rt"] }
env_logger = "*"
log = "0.4"
