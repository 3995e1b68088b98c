[package]
name = "sofa"
version = "0.1.0"
edition = "2021"
publish = false

[dependencies]
url = "2"
reqwest = { version = "0.12", default-features = false, features = ["blocking", "gzip", "json"] }
serde = { version = "1", features = ["derive"] }
serde_json = "1"
