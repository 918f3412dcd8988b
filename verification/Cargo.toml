[package]
name = "pink_accents"
version = "0.1.0"
edition = "2021"
publish = false

[dependencies]
fancy-regex = "*"
rand = "0.8"
rand_distr = "0.4"
pyo3 = "0.20"
lazy_static = "1"
parking_lot = "0.12"
