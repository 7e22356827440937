[package]
name = "static_file_metrics"
version = "0.1.0"
edition = "2021"
publish = false

[dependencies]
metrics = "*"
strum = { version = "*", features = ["derive"] }
