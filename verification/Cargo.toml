[package]
name = "secure_file_share"
version = "0.1.0"
edition = "2021"
publish = false

[dependencies]
actix-cors = "=0.7.2"
actix-multipart = "=0.7.2"
actix-web = { version = "=4.18.1", default-features = false, features = ["macros"] }
actix-web-httpauth = "=0.8.3"
aes = "=0.7.5"
argon2 = { version = "=0.5.3", features = ["std"] }
base64 = "=0.22.1"
block-modes = "=0.8.1"
chrono = "=0.4.45"
cron = "=0.12.1"
dotenv = "=0.15.0"
futures-util = "=0.3.34"
jsonwebtoken = "=9.3.1"
mongodb = "=3.9.1"
rand = "=0.8.8"
rand_chacha = "=0.3.1"
rsa = "=0.9.10"
serde = { version = "=1.0.229", features = ["derive"] }
serde_json = "=1.0.154"
tokio = { version = "=1.54.1", features = ["macros", "rt-multi-thread", "time"] }
validator = "=0.16.1"
