[package]
name = "wasm3_runtime"
version = "0.1.0"
edition = "2021"
publish = false

[dependencies]
wasm3-sys = "*"
