[package]
name = "nacos_binding"
version = "0.1.0"
edition = "2021"
publish = false

[dependencies]
nacos-sdk = { version = "=0.8.3", features = ["auth-by-aliyun"] }
pyo3 = { version = "=0.20.3", features = ["extension-module"] }
pyo3-asyncio = { version = "=0.20.0", features = ["tokio-runtime"] }
serde = { version = "=1.0.229", features = ["derive"] }
bincode = "=1.3.3"
lazy_static = "=1.5.1"
tracing-appender = "=0.2.5"
tracing-subscriber = "=0.3.23"
