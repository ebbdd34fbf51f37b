[package]
name = "chaos_symphony"
version = "0.1.0"
edition = "2021"
publish = false

[dependencies]
uuid = { version = "1", features = ["v4"] }
bevy = { version = "0.12", default-features = false }
tokio = { version = "1", features = ["rt-multi-thread", "macros", "sync"] }
quinn = "0.10"
rustls = "0.21"
rcgen = "0.11"
directories = "5"
serde = { version = "1", features = ["derive"] }
serde_json = "1"
tracing = "0.1"
