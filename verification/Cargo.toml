[package]
name = "bard_pad"
version = "0.1.0"
edition = "2021"
publish = false

[dependencies]
async-std = "1"
cpal = "0.14"
hidapi = "2"
usfx = "0.1"
