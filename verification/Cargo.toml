[package]
name = "accompanist"
version = "0.1.0"
edition = "2021"
publish = false

[dependencies]
nalgebra = "*"
nalgebra-mvn = "*"
serde_json = "*"
