[package]
name = "noctua"
version = "0.1.0"
edition = "2021"
publish = false

[dependencies]
image = "*"
resvg = "*"
anyhow = "*"
log = "*"
dirs = "*"
cairo-rs = "*"
poppler = "*"
