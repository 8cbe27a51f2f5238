[package]
name = "timeline_plugin_location"
version = "0.1.0"
edition = "2021"
publish = false

[dependencies]
chrono = "*"
serde_json = "*"
serde = { version = "*", features = ["derive"] }
toml = "*"
url = "*"
reqwest = { version = "*", default-features = false }
