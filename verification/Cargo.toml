[package]
name = "playground"
version = "0.1.0"
edition = "2021"
publish = false

[dependencies]
gleam = "0.15"
glutin = "=0.21.2"
webrender = "=0.70.0"
