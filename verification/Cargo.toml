[package]
name = "yalmp"
version = "0.1.0"
edition = "2021"
publish = false

[dependencies]
serde_json = "1"
serde = { version = "1", features = ["derive"] }
rusqlite = { version = "0.32", features = ["bundled"] }
rodio = "0.20"
tokio = { version = "1", features = ["sync", "time", "macros", "rt-multi-thread"] }
dirs = "5"
anyhow = "1"
