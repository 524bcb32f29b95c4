[package]
name = "tts_backend"
version = "0.1.0"
edition = "2021"
publish = false

[dependencies]
serde = { version = "=1.0.229", features = ["derive"] }
serde_json = { version = "=1.0.154", features = ["float_roundtrip"] }
uuid = { version = "=1.29.0", features = ["v4", "serde"] }
chrono = { version = "=0.4.45", features = ["serde"] }
lru = "=0.12.5"
actix-web = "=4.18.1"
actix-cors = "=0.7.2"
tokio = { version = "=1.54.1", features = ["rt-multi-thread", "macros", "sync", "time"] }
env_logger = "=0.11.11"
pyo3 = "=0.22.6"
hound = "=3.5.1"
