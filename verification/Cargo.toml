[package]
name = "linwhisper"
version = "0.1.0"
edition = "2021"
publish = false

[dependencies]
serde_json = "*"
cpal = "*"
dirs = "*"
reqwest = { version = "*", default-features = false, features = ["rustls-tls", "multipart", "json"] }
rusqlite = { version = "*", features = ["bundled"] }
tokio = { version = "*", features = ["rt-multi-thread"] }

[dev-dependencies]
hound = "*"
