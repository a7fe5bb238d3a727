[package]
name = "audec"
version = "0.1.0"
edition = "2021"
publish = false

[dependencies]
bzip2 = "*"
flate2 = "*"
lz4 = "*"
lz4_flex = "*"
zstd = "*"
