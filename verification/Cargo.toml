[package]
name = "ultrafine_brightness"
version = "0.1.0"
edition = "2021"
publish = false

[dependencies]
clap = "2"
rusb = "0.9"
