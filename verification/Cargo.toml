[package]
name = "roqoqo"
version = "0.1.0"
edition = "2021"
publish = false

[dependencies]
qoqo_calculator = "*"
ndarray = "0.15"
num-complex = "0.4"
serde = { version = "1", features = ["derive"] }
