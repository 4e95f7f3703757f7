[package]
name = "stdio_bridge"
version = "0.1.0"
edition = "2021"
publish = false

[dependencies]
byteorder = "1"
named_pipe = "*"
