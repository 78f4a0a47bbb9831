[package]
name = "synacore"
version = "0.1.0"
edition = "2021"
publish = false

[dependencies]
byteorder = "1"
text_io = "0.1"
