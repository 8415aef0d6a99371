[package]
name = "lodestone"
version = "0.1.0"
edition = "2021"
publish = false

[dependencies]
failure = "0.1"
reqwest = "0.12"
url = "2"
