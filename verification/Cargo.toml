[package]
name = "iced_nsview"
version = "0.1.0"
edition = "2021"
publish = false

[dependencies]
cocoa = "=0.20.2"
core-graphics = "=0.19.2"
iced_native = "=0.3.0"
iced_wgpu = { version = "=0.3.0", features = ["canvas"] }
objc = "=0.2.7"
