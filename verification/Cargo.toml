[package]
name = "gnt_tools"
version = "0.1.0"
edition = "2021"
publish = false

[dependencies]
unicode-normalization = "0.1.25"
