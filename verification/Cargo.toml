[package]
name = "fractal_api"
version = "0.1.0"
edition = "2021"
publish = false

[dependencies]
rustc-serialize = "=0.3.25"
time = "0.1"
hyper = "=0.10.16"
