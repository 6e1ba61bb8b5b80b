[package]
name = "path_normalize"
version = "0.1.0"
edition = "2021"
publish = false

[dependencies]
dunce = "1"
derive_builder = "*"
