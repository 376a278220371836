[package]
name = "rustcad"
version = "0.1.0"
edition = "2021"
publish = false

[dependencies]
byteorder = "1"
itertools = "0.14"
