[package]
name = "rhai_script"
version = "0.1.0"
edition = "2021"
publish = false

[dependencies]
rhai = { version = "=1.26.1", features = ["sync", "serde"] }
serde = "=1.0.229"
serde_json = "=1.0.151"
tera = "=1.20.1"
tracing = "*"

[dev-dependencies]
tempfile = "=3.27.0"
