[package]
name = "forgive-me"
version = "0.1.0"
edition = "2021"
publish = false

[dependencies]
sha2 = "0.10"
getrandom = "0.3"
subtle = "2"
serde = { version = "1", features = ["derive"] }
serde_json = "1"
anyhow = "1"
tokio = { version = "1", features = ["full"] }
tokio-tungstenite = "0.26"
futures-util = { version = "0.3", features = ["sink"] }
dirs = "6"
fs2 = "0.4"
clap = { version = "4", features = ["derive"] }
rusqlite = { version = "0.32", features = ["bundled"] }

[dev-dependencies]
tempfile = "3"
