[package]
name = "oxygine"
version = "0.1.0"
edition = "2021"

[dependencies]
num = "=0.4.3"
glium = "=0.36.0"
glutin-winit = "=0.5.0"
