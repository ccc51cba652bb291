[package]
name = "lilnouns_click"
version = "0.1.0"
edition = "2021"
publish = false

[dependencies]
serde = { version = "=1.0.229", features = ["derive"] }
sqids = "=0.4.2"
url = "=2.5.8"
worker = "=0.8.7"
