[package]
name = "joltshark"
version = "0.1.0"
edition = "2021"
publish = false

[dependencies]
num-traits = "=0.2.19"
rustler = "=0.34.0"
