[package]
name = "stockbars"
version = "0.1.0"
edition = "2021"
publish = false

[dependencies]
chrono = "=0.4.45"
anyhow = "=1.0.104"
clap = { version = "=4.6.7", features = ["derive"] }
influxdb = { version = "=0.8.0", features = ["derive"] }
serde = { version = "=1.0.229", features = ["derive"] }
tokio = { version = "=1.53.2", features = ["macros", "rt-multi-thread"] }
yahoo-finance = "=0.2.0"
