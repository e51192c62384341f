[package]
name = "gmud_backend"
version = "0.1.0"
edition = "2021"
publish = false

[dependencies]
actix-cors = "0.7"
actix-web = "4"
bcrypt = "0.15"
chrono = "0.4"
dotenvy = "0.15"
env_logger = "0.11"
futures-util = "0.3"
jsonwebtoken = "9"
log = "0.4"
mongodb = "3"
serde = { version = "1", features = ["derive"] }
serde_json = { version = "1", features = ["raw_value"] }
thiserror = "1"
uuid = { version = "1", features = ["v4"] }
validator = { version = "0.18", features = ["derive"] }
