[package]
name = "phantom"
version = "0.1.0"
edition = "2021"
publish = false

[dependencies]
rand = "=0.8.5"
serde = { version = "1", features = ["derive"] }
serde_json = "1"
tokio = { version = "1", features = ["time"] }
reqwest = { version = "0.12", default-features = false, features = ["json", "rustls-tls"] }
rusqlite = { version = "0.31", features = ["bundled"] }
dirs = "5"
cpal = "0.15"
whisper-rs = "0.14"
cocoa = "0.26"
objc = "0.2"
block = "0.1"
core-graphics = "0.24"
