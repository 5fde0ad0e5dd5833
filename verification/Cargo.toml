[package]
name = "mitschreiber_sampler"
version = "0.1.0"
edition = "2021"
publish = false

[dependencies]
chrono = "0.4"
crossbeam-channel = "0.5"
once_cell = "1"
parking_lot = "0.12"
pyo3 = "0.20"
serde = { version = "1", features = ["derive"] }
serde_json = "1"
x11rb = "0.13"
