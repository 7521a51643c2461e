[package]
name = "image_labeler"
version = "0.1.0"
edition = "2021"
publish = false

[dependencies]
getopts = "*"
imageproc = "*"
ab_glyph = "*"
