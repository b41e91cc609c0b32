[package]
name = "vendor_bot"
version = "0.1.0"
edition = "2021"
publish = false

[dependencies]
rive-models = "=1.2.1"
rive-http = "=1.1.1"
rive-gateway = "=1.1.0"
rive-autumn = "=1.1.0"
rive-cache-inmemory = "=1.0.0"
futures-util = "=0.3.34"
tokio = { version = "=1.54.1", features = ["rt", "macros"] }
tracing = "=0.1.44"
tracing-subscriber = "=0.3.23"

[dev-dependencies]
serde_json = "=1.0.154"
