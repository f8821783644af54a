[package]
name = "mytv"
version = "0.1.0"
edition = "2021"
publish = false

[dependencies]
anyhow = "1"
clap = { version = "4", features = ["derive"] }
socket2 = { version = "*", features = ["all"] }
time = { version = "0.3", features = ["macros", "local-offset", "formatting"] }
tokio = { version = "1", features = ["full"] }
tracing = "0.1"
tracing-subscriber = { version = "0.3", features = ["env-filter", "time", "local-time"] }
