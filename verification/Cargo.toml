[package]
name = "edu_ical"
version = "0.1.0"
edition = "2021"
publish = false

[dependencies]
chrono = "0.4"
ics = "0.5"
num-traits = "0.2"
reqwest = { version = "0.11", default-features = false, features = ["json", "rustls-tls"] }
rocket = "0.5"
serde = { version = "1", features = ["derive"] }
serde_json = "1"
uuid = { version = "1", features = ["v4"] }
