[package]
name = "simple_endian"
version = "0.4.0"
edition = "2021"
publish = false

[dependencies]
encoding_rs = "0.8"
