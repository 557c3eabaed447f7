[package]
name = "pizza_store"
version = "0.1.0"
edition = "2021"
publish = false

[dependencies]
uuid = { version = "*", features = ["v4"] }
actix-web = "*"
serde = { version = "*", features = ["derive"] }
env_logger = "*"
