[package]
name = "scene_render"
version = "0.1.0"
edition = "2021"
publish = false

[dependencies]
piston2d-graphics = "*"
shader_version = "*"
piston-shaders_graphics2d = "*"
gl = "*"
cgmath = "*"
piston = "*"
pistoncore-glutin_window = "*"
android_glue = "*"
