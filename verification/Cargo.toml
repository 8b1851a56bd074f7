[package]
name = "hoo_engine"
version = "0.1.0"
edition = "2021"
publish = false

[dependencies]
v8 = "0.74"
regex = "1"
