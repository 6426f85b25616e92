[package]
name = "ferrum"
version = "0.1.0"
edition = "2021"
publish = false

[dependencies]
validator = "=0.14.0"
argon2 = { version = "=0.5.3", features = ["std"] }
actix = "=0.13.5"
actix-web = { version = "=4.18.1", default-features = false, features = ["macros"] }
actix-http = "=3.20.0"
actix-cors = "=0.6.5"
actix-rt = "=2.15.0"
tracing-actix-web = "=0.7.25"
tracing = "=0.1.44"
sqlx = { version = "=0.7.4", default-features = false, features = ["runtime-tokio", "postgres", "uuid", "chrono"] }
lapin = "=2.5.5"
tokio-amqp = "=2.0.0"
tokio = { version = "=1.54.1", features = ["full"] }
tokio-tungstenite = "=0.20.1"
futures = "=0.3.34"
futures-util = "=0.3.34"
async-trait = "=0.1.92"
config = { version = "=0.13.4", default-features = false, features = ["yaml"] }
jsonwebtoken = "=7.2.0"
serde = { version = "=1.0.229", features = ["derive"] }
serde_json = { version = "=1.0.154", features = ["preserve_order"] }
uuid = { version = "=1.29.0", features = ["v4", "serde"] }
chrono = { version = "=0.4.45", features = ["serde"] }
thiserror = "=1.0.69"
anyhow = "=1.0.104"
