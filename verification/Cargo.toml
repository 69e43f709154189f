[package]
name = "environment_cache"
version = "0.1.0"
edition = "2021"
publish = false

[dependencies]
fs-err = "=3.3.2"
tracing = "=0.1.44"
uv-cache-key = { version = "=0.0.20", default-features = false }
uv-fs = { version = "=0.0.20", default-features = false }
