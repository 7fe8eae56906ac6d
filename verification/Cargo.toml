[package]
name = "fn_typecheck"
version = "0.1.0"
edition = "2021"
publish = false

[dependencies]
sway-types = "*"
