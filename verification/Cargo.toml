[package]
name = "awr"
version = "0.1.0"
edition = "2021"
publish = false

[dependencies]
serde_json = "1"
rand_chacha = "0.3"
