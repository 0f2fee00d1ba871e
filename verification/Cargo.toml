[package]
name = "async_loader"
version = "0.1.0"
edition = "2021"
publish = false

[dependencies]
anyhow = "=1.0.104"
axum = { version = "=0.7.9", default-features = false, features = ["json"] }
parking_lot = "=0.12.5"
reqwest = { version = "=0.12.28", default-features = false }
serde = { version = "=1.0.229", features = ["derive"] }
tokio = { version = "=1.54.1", features = ["rt", "sync"] }
tracing = "=0.1.44"

[dev-dependencies]
tokio = { version = "=1.54.1", features = ["rt", "sync", "time"] }
