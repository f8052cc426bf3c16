[package]
name = "datasynth"
version = "0.1.0"
edition = "2021"
publish = false

[dependencies]
fake = { version = "=2.10.0", features = ["chrono", "http", "uuid", "random_color"] }
rand = "=0.8.8"
chrono = "=0.4.45"
serde = { version = "=1.0.229", features = ["derive"] }
serde_json = "=1.0.151"
