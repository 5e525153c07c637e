[package]
name = "qserde"
version = "0.1.0"
edition = "2021"
publish = false

[dependencies]
ml-kem = "0.2"
rand_core = "0.6"

[dev-dependencies]
rand = "0.8.5"
