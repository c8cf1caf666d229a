[package]
name = "bioma"
version = "0.1.0"
edition = "2021"
publish = false

[dependencies]
tokio = { version = "=1.54.1", features = ["sync", "time", "rt"] }
serde = { version = "=1.0.229", features = ["derive"] }
serde_json = "1"
tracing = "=0.1.44"
object_store = "=0.14.2"
futures = "=0.3.34"
humantime-serde = "=1.1.1"
derive_more = { version = "=1.0.0", features = ["display"] }
