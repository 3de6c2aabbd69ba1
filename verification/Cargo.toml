[package]
name = "xcm_trace"
version = "0.1.0"
edition = "2021"
publish = false

[dependencies]
clap = { version = "4", features = ["derive"] }
hex = "0.4"
parity-scale-codec = "3"
staging-xcm = "7"
