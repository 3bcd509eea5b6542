[package]
name = "todo_api"
version = "0.1.0"
edition = "2021"
publish = false

[dependencies]
actix-cors = "0.5"
actix-service = "1"
actix-web = "3"
actix-web-validator = "2"
base64 = "0.13"
bcrypt = "0.9"
chrono = "0.4"
crony = "*"
diesel = { version = "1.4", features = ["postgres"] }
dotenv = "0.15"
env_logger = "0.8"
futures = "0.3"
jsonwebtoken = "7"
r2d2 = "0.8"
r2d2-diesel = "1.0"
serde = { version = "1", features = ["derive"] }
serde_json = { version = "1", features = ["preserve_order"] }
uuid = { version = "0.8", features = ["v4"] }
validator = { version = "0.12", features = ["derive"] }
