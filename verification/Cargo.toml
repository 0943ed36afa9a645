[package]
name = "kolloquy"
version = "0.1.0"
edition = "2021"
publish = false

[dependencies]
ammonia = "=4.2.4"
base64 = "=0.22.1"
brotli = { version = "=9.0.0", features = ["portable-float"] }
chrono = { version = "=0.4.45", features = ["serde"] }
dotenv = "=0.15.0"
futures = "=0.3.34"
handlebars = "=6.4.4"
poem = { version = "=3.1.12", features = ["websocket", "cookie"] }
rand = "=0.9.5"
rand_chacha = "=0.9.0"
regex = "=1.13.1"
reqwest = { version = "=0.12.28", default-features = false, features = ["rustls-tls"] }
rust-s3 = { version = "=0.35.1", default-features = false, features = ["tokio-rustls-tls"] }
serde = { version = "=1.0.229", features = ["derive"] }
serde_json = "=1.0.154"
svg = "=0.18.0"
tokio = { version = "=1.54.1", features = ["sync", "rt-multi-thread", "macros"] }
