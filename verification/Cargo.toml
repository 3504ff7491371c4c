[package]
name = "xcm_decoder"
version = "0.1.0"
edition = "2021"
publish = false

[dependencies]
hex = "*"

[dev-dependencies]
parity-scale-codec = "*"
staging-xcm = "*"
