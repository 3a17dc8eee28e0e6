[package]
name = "iupitermag"
version = "0.1.0"
edition = "2021"
publish = false

[dependencies]
ndarray = { version = "*", features = ["rayon"] }
lazyivy = "*"
