[package]
name = "dalle2"
version = "0.1.0"
edition = "2021"
publish = false

[dependencies]
webp = "*"
reqwest = { version = "*", default-features = false, features = ["blocking", "json"] }
serde = { version = "*", features = ["derive"] }
serde_json = "*"
