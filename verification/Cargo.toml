[package]
name = "discopanic"
version = "0.1.0"
edition = "2021"
publish = false

[dependencies]
backtrace = "*"
backtrace-ext = "*"
