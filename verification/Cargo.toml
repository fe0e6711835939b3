[package]
name = "spin_python_engine"
version = "0.1.0"
edition = "2021"
publish = false

[dependencies]
anyhow = "=1.0.104"
bytes = "*"
futures = "*"
http = "=1.5.0"
http-body-util = "*"
once_cell = "=1.21.4"
pyo3 = "=0.29.3"
spin-sdk = "=7.0.0"
