[package]
name = "smuc"
version = "0.1.0"
edition = "2021"
publish = false

[dependencies]
serde = { version = "1", features = ["derive"] }
serde_json = "1"
tokio = { version = "1", features = ["full"] }
tracing = "0.1"
tracing-subscriber = "0.3"
iced = { version = "0.14", default-features = false, features = ["tokio", "tiny-skia", "x11"] }
iced_futures = { version = "0.14", default-features = false }
