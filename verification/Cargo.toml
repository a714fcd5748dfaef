[package]
name = "outcome"
version = "0.1.0"
edition = "2021"
publish = false

[dependencies]
term-painter = "*"
