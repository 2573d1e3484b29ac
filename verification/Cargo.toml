[package]
name = "image_processor"
version = "0.1.0"
edition = "2021"
publish = false

[dependencies]
ulid = "1"
file-format = "*"
tokio = { version = "1", features = ["fs", "io-util", "macros", "rt", "sync", "time"] }
futures = "0.3"
prost = "0.12"
bytes = "1"
tracing = "0.1"
rust-s3 = { version = "0.33", default-features = false, features = ["tokio-rustls-tls"] }
async-nats = "0.33"
