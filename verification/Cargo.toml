[package]
name = "sherpa-rs"
version = "0.1.0"
edition = "2021"
publish = false

[dependencies]
eyre = "0.6"
hound = "3.5"
log = "0.4"
sherpa-rs-sys = "*"
