[package]
name = "fluss"
version = "0.1.0"
edition = "2021"
publish = false

[dependencies]
kurbo = "0.11"
winit = "0.29"
syn = { version = "2", features = ["full"] }
quote = "1"
proc-macro2 = "1"
lazy_static = "1"
log = "0.4"
accesskit = "*"
euclid = "*"
