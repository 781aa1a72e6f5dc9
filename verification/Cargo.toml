[package]
name = "microservice"
version = "0.1.0"
edition = "2021"
publish = false

[dependencies]
slog = "*"
slog-async = "*"
slog-json = "*"
slog-term = "*"
ctrlc = "*"
serde = { version = "*", features = ["derive"] }
config = "*"
