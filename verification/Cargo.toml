[package]
name = "rusty_nexus"
version = "0.1.0"
edition = "2021"

[dependencies]
reqwest = { version = "=0.11.27", features = ["json"] }
serde_json = "=1.0.154"
