[package]
name = "soap_tub"
version = "0.1.0"
edition = "2021"
publish = false

[dependencies]
anyhow = "=1.0.104"
nalgebra = "=0.35.0"
rand = "=0.10.3"
rapier2d = "=0.36.1"
salva2d = { version = "=0.11.0", features = ["rapier"] }
