[package]
name = "token_auth"
version = "0.1.0"
edition = "2021"
publish = false

[dependencies]
argon2 = { version = "=0.5.3", features = ["std"] }
jsonwebtoken = "=9.3.1"
chrono = "=0.4.45"
serde = { version = "=1.0.229", features = ["derive"] }
serde_json = "=1.0.154"
actix-web = "=4.18.1"
futures-util = "=0.3.34"
mongodb = "=3.9.1"
dotenv = "=0.15.0"
utoipa = "=5.5.0"
utoipa-swagger-ui = { version = "=9.0.2", features = ["actix-web", "vendored"] }
