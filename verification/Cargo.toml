[package]
name = "serde-onnx"
version = "0.1.0"
edition = "2021"
publish = false

[dependencies]
prost = "0.13"
half = "2"
num-traits = "0.2"
