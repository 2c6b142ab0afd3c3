[package]
name = "blaupause"
version = "0.1.0"
edition = "2021"
publish = false

[dependencies]
which = "=7.0.3"
