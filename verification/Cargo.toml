[package]
name = "disasm"
version = "0.1.0"
edition = "2021"
publish = false

[dependencies]
clap = "4"
tracing = "0.1"
tracing-subscriber = "0.3"
