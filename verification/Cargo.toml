[package]
name = "owmath"
version = "0.1.0"
edition = "2021"
publish = false

[dependencies]
duplicate = "*"

[dev-dependencies]
num-traits = "*"
