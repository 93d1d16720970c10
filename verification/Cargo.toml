[package]
name = "softfloat_wrapper"
version = "0.1.0"
edition = "2021"
publish = false

[dependencies]
softfloat-sys = "0.1"
num-traits = "0.2"

[dev-dependencies]
simple-soft-float = "0.1"
