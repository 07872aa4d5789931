[package]
name = "user_service"
version = "0.1.0"
edition = "2021"
publish = false

[dependencies]
validator = "=0.21.0"
chrono = "=0.4.45"
serde = { version = "=1.0.229", features = ["derive"] }
actix-web = "=4.15.0"
actix-cors = "=0.7.2"
dotenv = "=0.15.0"
env_logger = "=0.11.11"
log = "=0.4.34"
