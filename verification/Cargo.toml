[package]
name = "orengine"
version = "0.1.0"
edition = "2021"
publish = false

[dependencies]
ahash = "0.8"
