[package]
name = "blog_actix"
version = "0.1.0"
edition = "2021"
publish = false

[dependencies]
actix-web = "4"
diesel = { version = "2", features = ["sqlite", "r2d2"] }
dotenvy = "0.15"
env_logger = "0.11"
futures = "0.3"
serde = { version = "1", features = ["derive"] }
