[package]
name = "computed_origin"
version = "0.1.0"
edition = "2021"
publish = false

[dependencies]
parity-scale-codec = "3"
staging-xcm = "7.0.0"
