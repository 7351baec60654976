[package]
name = "frame_relay"
version = "0.1.0"
edition = "2021"
publish = false

[dependencies]
axum = { version = "*", features = ["ws"] }
futures = "*"
tokio = { version = "*", features = ["macros", "net", "rt-multi-thread"] }
tokio-tungstenite = "*"
