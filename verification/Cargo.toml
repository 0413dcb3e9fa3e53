[package]
name = "spice_client"
version = "0.1.0"
edition = "2021"
publish = false

[dependencies]
glib = "0.18"
winit = "0.29"
metal = "0.27"
cocoa = "0.25"
objc = "0.2"
core-graphics-types = "0.1"
