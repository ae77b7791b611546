[package]
name = "openhuman"
version = "0.1.0"
edition = "2021"
publish = false

[dependencies]
sha2 = "0.10"
hex = "0.4"
chrono = "0.4"
serde = { version = "1", features = ["derive"] }
serde_json = "1"
tokio = { version = "1", features = ["rt-multi-thread", "macros", "sync", "time", "fs"] }
reqwest = { version = "0.12", default-features = false, features = ["json"] }
rusqlite = { version = "*", features = ["bundled"] }
uuid = { version = "1", features = ["v4"] }
anyhow = "1"
async-trait = "0.1"
parking_lot = "0.12"
log = "0.4"
base64 = "0.22"
