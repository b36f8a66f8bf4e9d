[package]
name = "esp32framework"
version = "0.1.0"
edition = "2021"
publish = false

[dependencies]
uuid = { version = "1", features = ["v3"] }
esp-idf-svc = "*"
esp32-nimble = "*"
