[package]
name = "basis_universal"
version = "0.1.0"
edition = "2021"
publish = false

[dependencies]
basis-universal-sys = "*"
