[package]
name = "rustickers"
version = "0.1.0"
edition = "2021"
publish = false

[dependencies]
chrono = "*"
cron = "*"
serde = { version = "*", features = ["derive"] }
serde_json = "*"
which = "*"
winsplit = "*"
