[package]
name = "user_records"
version = "0.1.0"
edition = "2021"
publish = false

[dependencies]
bson = "=0.14.1"
mongodb = "=0.9.2"
serde = { version = "1.0", features = ["derive"] }
actix-web = "=2.0.0"
actix-rt = "=1.1.1"
actix-cors = "=0.2.0"
dotenv = "=0.15.0"
env_logger = "=0.7.1"
chrono = "=0.4.19"
regex = "=1.3.9"
