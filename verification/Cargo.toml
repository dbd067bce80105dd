[package]
name = "miden_program"
version = "0.1.0"
edition = "2021"
publish = false

[dependencies]
p3-goldilocks = "=0.6.3"
p3-field = "=0.6.3"

[dev-dependencies]
winter-math = "=0.13.1"
