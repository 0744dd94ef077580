[package]
name = "unicom_python"
version = "0.1.0"
edition = "2021"
publish = false

[dependencies]
serde_json = "=1.0.154"
serde = { version = "=1.0.229", features = ["derive"] }
serde_derive = "=1.0.229"
toml = "=0.5.11"
walkdir = "=2.5.0"
tokio = { version = "=1.54.1", features = ["full"] }
futures = "=0.3.34"
lazy_static = "=1.5.1"
pyo3 = { version = "=0.17.3", features = ["auto-initialize"] }
pyo3-asyncio = { version = "=0.17.0", features = ["attributes", "tokio-runtime"] }
pythonize = "=0.17.0"
