[package]
name = "mp4_pipe"
version = "0.1.0"
edition = "2021"
publish = false

[dependencies]
wait-timeout = "*"
