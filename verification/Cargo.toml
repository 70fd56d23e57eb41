[package]
name = "transr"
version = "0.1.0"
edition = "2021"
publish = false

[dependencies]
chrono = "0.4"
md-5 = "0.10"
num-bigint = "0.4"
num-traits = "0.2"
pyo3 = { version = "0.20", features = ["extension-module"] }
rand = "0.8"
rayon = "1"
regex = "1"
reqwest = { version = "0.11", features = ["blocking"] }
serde = { version = "1", features = ["derive"] }
sha2 = "0.10"
sysinfo = "0.30"
thiserror = "1"
