[package]
name = "catalog_sync"
version = "0.1.0"
edition = "2021"
publish = false

[dependencies]
aes-gcm = "*"
anyhow = "*"
base64 = "*"
calamine = "*"
dotenvy = "*"
open = "*"
pathdiff = "*"
pbkdf2 = "*"
reqwest = { version = "*", default-features = false }
rusqlite = { version = "*", features = ["bundled"] }
serde = { version = "*", features = ["derive"] }
serde_json = "*"
sha2 = "*"
tokio = { version = "*", features = ["rt-multi-thread", "sync", "macros", "time"] }
url = "*"
walkdir = "*"
