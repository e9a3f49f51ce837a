[package]
name = "moto_workshop"
version = "0.1.0"
edition = "2021"
publish = false

[dependencies]
rusqlite = "=0.32.1"
serde = { version = "1", features = ["derive"] }
