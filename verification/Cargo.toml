[package]
name = "market_api"
version = "0.1.0"
edition = "2021"
publish = false

[dependencies]
rusqlite = { version = "*", features = ["bundled"] }
chrono = "*"
serde = { version = "*", features = ["derive"] }
serde_json = "*"
clap = "*"
env_logger = "*"
r2d2 = "*"
r2d2_sqlite = "*"
actix-web = { version = "*", default-features = false }
actix-rt = "*"
