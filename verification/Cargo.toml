[package]
name = "fie"
version = "0.1.0"
edition = "2021"
publish = false

[dependencies]
serde_json = "=1.0.154"
serde = { version = "=1.0.229", features = ["derive"] }
clap = "=2.34.0"
futures = "0.3"
yukikaze = { version = "=1.0.10", default-features = false, features = ["rustls-on"] }
egg-mode = "0.15"
tokio = { version = "0.2", features = ["rt-core"] }
