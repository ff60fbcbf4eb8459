[package]
name = "swarm"
version = "0.1.0"
edition = "2021"
publish = false

[dependencies]
rand = "*"
rustc_apfloat = "*"
