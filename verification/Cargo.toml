[package]
name = "aloxide"
version = "0.1.0"
edition = "2021"
publish = false

[dependencies]
memchr = "2"
cc = "1"
tar = "*"
bzip2 = "*"
ureq = "*"
dirs = "*"
