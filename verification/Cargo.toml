[package]
name = "deadbolt"
version = "0.1.0"
edition = "2021"
publish = false

[dependencies]
pyo3 = "*"
tokio = { version = "*", features = ["rt-multi-thread"] }
tokio-postgres = "*"
