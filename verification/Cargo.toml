[package]
name = "ut61e"
version = "0.1.0"
edition = "2021"
publish = false

[dependencies]
cp211x_uart = "*"
