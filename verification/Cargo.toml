[package]
name = "iceoryx2_bridge"
version = "0.1.0"
edition = "2021"
publish = false

[dependencies]
iceoryx2 = "=0.5.0"
iceoryx2-bb-container = "=0.5.0"
pyo3 = "=0.22.6"
