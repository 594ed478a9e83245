[package]
name = "ms4525do"
version = "0.1.0"
edition = "2021"
publish = false

[dependencies]
embedded-hal-async = "*"
libm = "*"
