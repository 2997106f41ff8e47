[package]
name = "launcher"
version = "0.1.0"
edition = "2021"
publish = false

[dependencies]
accessibility-sys = "*"
cocoa = "*"
core-foundation = "*"
core-graphics = "*"
macos-accessibility-client = "*"
objc = "*"
