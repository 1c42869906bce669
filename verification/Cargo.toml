[package]
name = "gridui"
version = "0.1.0"
edition = "2021"
publish = false

[dependencies]
unicode-segmentation = "*"
x11-dl = "*"
libc = "*"
