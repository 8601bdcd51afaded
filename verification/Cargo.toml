[package]
name = "rust_ml_framework"
version = "0.1.0"
edition = "2021"
publish = false

[dependencies]
ndarray = "0.16"
ndarray-rand = "0.15"
byteorder = "1"
libm = "0.2"
num-traits = "0.2"
