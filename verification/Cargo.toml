[package]
name = "chat_memory"
version = "0.1.0"
edition = "2021"
publish = false

[dependencies]
chrono = "0.4"
fern = "0.6"
lazy_static = "1"
log = "0.4"
reqwest = { version = "0.12", features = ["blocking", "json"] }
serde = { version = "1", features = ["derive"] }
serde_json = "1"
