[package]
name = "nucleo"
version = "0.1.0"
edition = "2021"
publish = false

[dependencies]
serde_json = "1"
uuid = { version = "1", features = ["v4"] }
serde = { version = "1", features = ["derive"] }
rusqlite = { version = "*", features = ["bundled"] }
tiny_http = "0.12"
thiserror = "*"
