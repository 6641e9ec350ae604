[package]
name = "rishka_tools"
version = "0.0.1"
edition = "2021"
publish = false

[dependencies]
clap = "4"
colored = "2"
