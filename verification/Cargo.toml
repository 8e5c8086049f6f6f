[package]
name = "ticket_queue"
version = "0.1.0"
edition = "2021"
publish = false

[dependencies]
base64 = "0.22"
constant_time_eq = "*"
qrcodegen = "*"
uuid = { version = "1", features = ["v4"] }
axum = "0.8"
tokio = { version = "1", features = ["macros", "rt-multi-thread", "net"] }
serde = { version = "1", features = ["derive"] }
