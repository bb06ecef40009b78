[package]
name = "dabbot"
version = "0.1.0"
edition = "2021"
publish = false

[dependencies]
byteorder = "=1.5.0"
humantime = "=2.4.0"
redis-async = "*"
serde = { version = "=1.0.229", features = ["derive"] }
serde_json = "=1.0.154"
serenity = { version = "=0.12.5", default-features = false, features = ["model", "utils", "rustls_backend"] }
tokio = { version = "1", features = ["rt-multi-thread", "macros", "signal", "time"] }
toml = "=1.2.1"
