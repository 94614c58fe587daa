[package]
name = "lz4f_stream"
version = "0.1.0"
edition = "2021"
publish = false

[dependencies]
async-std = "=1.13.2"
futures-lite = "=2.6.1"
pin-project = "=1.1.13"

[dev-dependencies]
lz4_flex = "=0.14.0"
