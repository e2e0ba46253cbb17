[package]
name = "bilibili_fav_cleaner"
version = "0.1.0"
edition = "2021"
publish = false

[dependencies]
dirs = "6"
reqwest = { version = "0.12", features = ["json"] }
serde = { version = "1", features = ["derive"] }
serde_json = "1"
