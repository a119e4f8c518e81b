[package]
name = "prima"
version = "0.1.0"
edition = "2021"
publish = false

[dependencies]
ash = "0.37"
