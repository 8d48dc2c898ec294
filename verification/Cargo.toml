[package]
name = "driver_staging"
version = "0.1.0"
edition = "2021"
publish = false

[dependencies]
futures-util = "*"
hidapi = "*"
reqwest = { version = "*", default-features = false, features = ["rustls-tls", "json", "stream"] }
serde = { version = "*", features = ["derive"] }
serde_json = "*"
tokio = { version = "*", features = ["rt-multi-thread", "macros", "fs", "io-util"] }
