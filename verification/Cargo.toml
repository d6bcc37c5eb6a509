[package]
name = "fonterator"
version = "0.2.0"
edition = "2021"
publish = false

[dependencies]
stb_truetype = "*"
unicode-normalization = "*"
