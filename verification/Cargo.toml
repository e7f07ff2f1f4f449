[package]
name = "encointer_currencies"
version = "0.1.0"
edition = "2021"
publish = false

[dependencies]
substrate-fixed = "=0.6.0"
blake2b_simd = "=1.0.5"
