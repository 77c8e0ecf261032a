[package]
name = "revim"
version = "0.1.0"
edition = "2021"
publish = false

[dependencies]
ropey = "1.6"
crossterm = "0.27"
clap = "2.34"
