[package]
name = "miro_term"
version = "0.1.0"
edition = "2021"
publish = false

[dependencies]
vtparse = "*"
unicode-segmentation = "*"
unicode-width = "*"
base64 = "*"
regex = "*"
anyhow = "*"
