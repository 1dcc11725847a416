[package]
name = "xtouchmini"
version = "0.1.0"
edition = "2021"
publish = false

[dependencies]
anyhow = "1"
autopilot = "*"
futures = "0.3"
midir = "*"
osascript = "*"
pin-project-lite = "0.2"
serde = { version = "1", features = ["derive"] }
serde_json = "1"
serde_repr = "0.1"
structopt = "0.3"
tokio = { version = "1", features = ["macros", "rt-multi-thread", "net"] }
tokio-util = { version = "0.7", features = ["codec"] }
tracing = "0.1"
