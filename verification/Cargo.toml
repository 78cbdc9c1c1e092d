[package]
name = "dfloat"
version = "0.1.0"
edition = "2021"
publish = false

[dependencies]
safeeft = "*"
float-traits = "*"
num-traits = "*"
