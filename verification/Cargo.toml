[package]
name = "radiation_sim"
version = "0.1.0"
edition = "2021"
publish = false

[dependencies]
fastrand = "*"
csv = "*"
serde = { version = "*", features = ["derive"] }
atomic_float = "*"
