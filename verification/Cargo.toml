[package]
name = "gsa_engine"
version = "0.1.0"
edition = "2021"
publish = false

[dependencies]
rand = "*"
rayon = "*"
serde = { version = "*", features = ["derive"] }
serde_json = "*"
indicatif = "*"
nalgebra = "*"
