[package]
name = "char_image"
version = "0.1.0"
edition = "2021"
publish = false

[dependencies]
png = "*"
url = "1.7"
freetype = "*"
libc = "*"
iron = "0.6"
params = "0.8"
