[package]
name = "oracle_lib"
version = "0.1.0"
edition = "2021"
publish = false

[dependencies]
colour = "*"
oracle = "*"
rust-embed = "*"
tempfile = "*"
