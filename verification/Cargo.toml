[package]
name = "school_schedule"
version = "0.1.0"
edition = "2021"
publish = false

[dependencies]
password-auth = "=1.0.0"
uuid = { version = "=1.27.0", features = ["serde", "v4"] }
axum = { version = "=0.8.9", features = ["multipart"] }
tokio = { version = "=1.53.2", features = ["rt-multi-thread", "macros", "net"] }
serde = { version = "=1.0.229", features = ["derive"] }
chrono = { version = "=0.4.45", features = ["serde"] }
