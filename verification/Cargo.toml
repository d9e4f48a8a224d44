[package]
name = "tagcore"
version = "0.1.0"
edition = "2021"
publish = false

[dependencies]
anyhow = "*"
id3 = "*"
lofty = "*"
