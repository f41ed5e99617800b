[package]
name = "realms"
version = "0.1.0"
edition = "2021"
publish = false

[dependencies]
rand = { version = "=0.7.3", features = ["small_rng"] }
