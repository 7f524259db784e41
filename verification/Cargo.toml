[package]
name = "mldsa65"
version = "0.1.0"
edition = "2021"
publish = false

[dependencies]
openssl = { version = "0.10", features = ["vendored"] }
pyo3 = "*"
