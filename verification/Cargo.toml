[package]
name = "neovide_core"
version = "0.1.0"
edition = "2021"
publish = false

[dependencies]
backtrace = "*"
time = { version = "*", features = ["formatting"] }
