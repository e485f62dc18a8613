[package]
name = "ts_static"
version = "0.1.0"
edition = "2021"
publish = false

[dependencies]
lazy_static = "*"

[dev-dependencies]
rayon = "*"
