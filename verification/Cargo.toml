[package]
name = "clinbox"
version = "0.1.0"
edition = "2021"
publish = false

[dependencies]
anyhow = "1"
chrono = "0.4"
clap = { version = "4", features = ["derive"] }
clipboard = "0.5"
reqwest = { version = "0.11", features = ["cookies"] }
reqwest_cookie_store = "0.6"
serde_json = "1"
tokio = { version = "1", features = ["full"] }
uuid = { version = "1", features = ["v4"] }
