[package]
name = "greeting_service"
version = "0.1.0"
edition = "2021"
publish = false

[dependencies]
actix-web = "3"
env_logger = "*"
serde = { version = "1", features = ["derive"] }
serde_json = "1"
struct2swagger = "*"
struct2swagger_derive = "*"
