[package]
name = "flurx"
version = "0.1.2"
edition = "2021"
publish = false

[dependencies]
pollster = "*"
async-compat = "*"
