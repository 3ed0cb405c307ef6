[package]
name = "nebulet"
version = "0.1.0"
edition = "2021"
publish = false

[dependencies]
anyhow = "*"
axum = "*"
bollard = "*"
chrono = "*"
sea-orm = { version = "*", features = ["macros"] }
serde = { version = "*", features = ["derive"] }
serde_json = "*"
tokio = { version = "*", features = ["macros", "rt-multi-thread", "signal", "time", "net"] }
tower-http = { version = "*", features = ["cors"] }
tracing = "*"
tracing-subscriber = { version = "*", features = ["fmt", "json"] }
uuid = { version = "*", features = ["v4"] }
