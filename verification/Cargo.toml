[package]
name = "zc"
version = "0.1.0"
edition = "2021"
publish = false

[dependencies]
aliasable = "*"
proc-macro2 = "1"
quote = "1"
syn = "1"
