[package]
name = "soda"
version = "0.1.0"
edition = "2021"
publish = false

[dependencies]
chrono = "*"
fern = "*"
log = "*"
pyo3 = "*"
fs-err = "*"

[dev-dependencies]
tempfile = "*"
