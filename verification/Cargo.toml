[package]
name = "rustui"
version = "0.1.0"
edition = "2021"
publish = false

[dependencies]
clap = "4"
eyre = "0.6"
gtk = "0.18"
tao = "0.34"
wry = { version = "0.53", features = ["devtools"] }
