[package]
name = "clipboard_monitor"
version = "0.1.0"
edition = "2021"
publish = false

[dependencies]
base64 = "0.22"
chrono = "0.4"
regex = "1"
image = { version = "0.24", default-features = false, features = ["png"] }
serde = { version = "1", features = ["derive"] }
serde_json = "1"
arboard = "3"
directories = "5"
parking_lot = "0.12"
lazy_static = "1"
