[package]
name = "ballot_box"
version = "0.1.0"
edition = "2021"
publish = false

[dependencies]
ergo-lib = "*"
base16 = "*"
