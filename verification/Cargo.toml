[package]
name = "withdrawal_index_reporter"
version = "0.1.0"
edition = "2021"
publish = false

[dependencies]
serde_json = "*"
serde = { version = "*", features = ["derive"] }
reqwest = { version = "*", default-features = false, features = ["blocking", "json"] }
log = "*"
prometheus = "*"
systemd-journal-logger = "*"
