[package]
name = "pinelog"
version = "0.1.0"
edition = "2021"
publish = false

[dependencies]
chrono = { version = "0.4", default-features = false, features = ["clock", "std"] }
colored = "2"
lazy_static = "1"
once_cell = "1"
serde = { version = "1", features = ["derive"] }
tokio = { version = "1", features = ["fs", "io-util", "sync", "rt", "rt-multi-thread"] }
toml = "0.8"
