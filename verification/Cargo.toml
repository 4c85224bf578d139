[package]
name = "global_input"
version = "0.1.0"
edition = "2021"
publish = false

[dependencies]
pistoncore-input = "*"
