[package]
name = "shrs_presence"
version = "0.1.0"
edition = "2021"
publish = false

[dependencies]
discord-rich-presence = "*"
uuid = { version = "*", features = ["v4"] }
axum = "*"
tokio = { version = "*", features = ["full"] }
serde = { version = "*", features = ["derive"] }
serde_json = "*"
reqwest = { version = "*", default-features = false, features = ["blocking", "json"] }
clap = { version = "*", features = ["derive"] }
shrs = "*"
dirs = "*"
anyhow = "*"
