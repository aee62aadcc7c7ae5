[package]
name = "rss_read_kun"
version = "0.1.0"
edition = "2021"
publish = false

[dependencies]
actix-web = "*"
base64 = "*"
dotenvy = "*"
env_logger = "*"
log = "*"
reqwest = { version = "*", default-features = false, features = ["json"] }
rss = "*"
serde = { version = "*", features = ["derive"] }
serde_json = "*"
