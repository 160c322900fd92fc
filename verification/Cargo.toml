[package]
name = "bannus_trackus"
version = "0.1.0"
edition = "2021"
publish = false

[dependencies]
chrono = "0.4"
eframe = "0.17"
serde = { version = "1", features = ["derive"] }
serde_json = "1"
