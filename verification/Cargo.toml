[package]
name = "svg_pattern"
version = "0.1.0"
edition = "2021"
publish = false

[dependencies]
cssparser = "*"
cairo-rs = "*"
glib = "*"
libc = "*"
