[package]
name = "pocketbase_sdk"
version = "0.1.0"
edition = "2021"
publish = false

[dependencies]
anyhow = "1"
serde = { version = "1", features = ["derive"] }
serde_json = { version = "1", features = ["raw_value"] }
ureq = { version = "2", default-features = false, features = ["json"] }
reqwest = { version = "0.11", default-features = false, features = ["stream"] }
eventsource-stream = "0.2"
futures = "0.3"
