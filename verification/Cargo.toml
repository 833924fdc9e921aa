[package]
name = "weather_model"
version = "0.1.0"
edition = "2021"
publish = false

[dependencies]
async-trait = "*"
chrono = { version = "*", features = ["serde"] }
reqwest = { version = "*", default-features = false, features = ["json"] }
serde = { version = "*", features = ["derive"] }
