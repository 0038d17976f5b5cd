[package]
name = "libs_2d"
version = "0.1.0"
edition = "2021"
publish = false

[dependencies]
num-traits = "=0.2.19"
rustc_apfloat = "*"

[dev-dependencies]
libm = "*"
