[package]
name = "reparent_wm"
version = "0.1.0"
edition = "2021"
publish = false

[dependencies]
x11 = { version = "*", features = ["xlib"] }
