[package]
name = "background_jobs"
version = "0.1.0"
edition = "2021"
publish = false

[dependencies]
apalis = "0.4"
chrono = "0.4"
chrono-tz = "0.8"
serde = { version = "1", features = ["derive"] }
strum = { version = "0.25", features = ["derive"] }
tracing = "0.1"
