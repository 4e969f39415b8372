[package]
name = "number_ai"
version = "0.1.0"
edition = "2021"
publish = false

[dependencies]
faer = "*"
itertools = "*"
rand = "0.8"
num-traits = "0.2"
