[package]
name = "time_duration_api"
version = "0.1.0"
edition = "2021"
publish = false

[dependencies]
chrono = { version = "0.4", default-features = false, features = ["std"] }
humantime = "2"
serde = { version = "1", features = ["derive"] }
