[package]
name = "tick_agent"
version = "0.1.0"
edition = "2021"
publish = false

[dependencies]
rand = "0.9"
csv = "1"
serde = { version = "1", features = ["derive"] }
serde_json = "1"
tokio = { version = "1", features = ["rt-multi-thread", "macros", "sync", "time"] }
tokio-tungstenite = "0.26"
futures-util = "0.3"
burn = { version = "0.17", default-features = false, features = ["std", "ndarray", "autodiff"] }
