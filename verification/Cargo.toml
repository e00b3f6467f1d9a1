[package]
name = "double_snake"
version = "0.1.0"
edition = "2021"
publish = false

[dependencies]
rand = "=0.8.8"
crossterm = "=0.25.0"
pad = "=0.1.6"
tap = "=1.0.1"
