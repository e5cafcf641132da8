[package]
name = "blitz"
version = "0.1.0"
edition = "2021"
publish = false

[dependencies]
minifb = "*"
time = "0.1"
