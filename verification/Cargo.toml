[package]
name = "pyrucast"
version = "0.1.0"
edition = "2021"
publish = false

[dependencies]
nalgebra = "*"
nalgebra-sparse = "*"
serde = { version = "1", features = ["derive"] }
