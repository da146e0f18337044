[package]
name = "taliesin"
version = "0.1.0"
edition = "2021"
publish = false

[dependencies]
clap = "*"
device_query = "*"
rodio = "*"
