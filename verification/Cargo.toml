[package]
name = "d2wm_parser"
version = "0.1.0"
edition = "2021"
publish = false

[dependencies]
anyhow = "*"
d2-stampede = "*"
d2-stampede-observers = "*"
hashbrown = "*"
pyo3 = "*"
