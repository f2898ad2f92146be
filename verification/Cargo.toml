[package]
name = "astrocalc"
version = "0.1.0"
edition = "2021"
publish = false

[dependencies]
chrono = "*"
julian_day_converter = "*"
libswe-sys = "*"
serde = { version = "*", features = ["derive"] }
serde_json = "*"
