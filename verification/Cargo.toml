[package]
name = "rust_gui"
version = "0.1.0"
edition = "2021"
publish = false

[dependencies]
rand = "0.8"
gl = "0.14"
glutin = "0.28"
rusttype = "0.9"
