[package]
name = "wiki_publisher"
version = "0.1.0"
edition = "2021"
publish = false

[dependencies]
reqwest = { version = "*", features = ["blocking", "multipart", "json"] }
serde = { version = "*", features = ["derive"] }
serde_json = "*"
serde_yaml = "*"
