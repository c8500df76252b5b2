[package]
name = "fluidsim"
version = "0.1.0"
edition = "2021"
publish = false

[dependencies]
bytemuck = "=1.25.2"
rand = "=0.8.8"
