[package]
name = "barnowld"
version = "0.1.0"
edition = "2021"
publish = false

[dependencies]
clap = "4"
libc = "0.2"
perf-event = "0.4"
rand = "0.8"
