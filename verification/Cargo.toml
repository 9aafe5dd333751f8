[package]
name = "zp_lib"
version = "0.3.0"
edition = "2021"
publish = false

[dependencies]
binrw = "*"
clap = { version = "3", features = ["derive"] }
hex = "0.4"
