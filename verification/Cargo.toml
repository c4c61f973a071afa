[package]
name = "firms_api"
version = "0.1.0"
edition = "2021"
publish = false

[dependencies]
uuid = { version = "1", features = ["v4", "serde"] }
actix-web = "4"
actix-cors = "0.6"
actix-web-grants = "3"
argon2 = "0.5"
chrono = { version = "0.4", features = ["serde"] }
dotenv = "0.15"
env_logger = "0.10"
hyper = { version = "0.14", features = ["full"] }
hyper-tls = "0.5"
jsonwebtoken = "8"
log = "0.4"
serde = { version = "1", features = ["derive"] }
serde_json = "1"
sqlx = { version = "0.7", features = ["runtime-tokio-native-tls", "postgres", "chrono", "uuid"] }
thirtyfour = "0.31"
thiserror = "1"
tokio = { version = "1", features = ["full"] }
