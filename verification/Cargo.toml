[package]
name = "matchclick"
version = "0.1.0"
edition = "2021"
publish = false

[dependencies]
image = "*"
serde = { version = "*", features = ["derive"] }
serde_json = "*"
chrono = "*"
crossterm = "*"
