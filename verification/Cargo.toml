[package]
name = "anime4k"
version = "0.1.0"
edition = "2021"
publish = false

[dependencies]
image = "*"
raster = "*"
clap = "*"
