[package]
name = "cra_client"
version = "0.1.0"
edition = "2021"
publish = false

[dependencies]
url = "2"
serde = { version = "1", features = ["derive"] }
reqwest = { version = "0.11", default-features = false }
