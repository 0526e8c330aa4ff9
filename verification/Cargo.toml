[package]
name = "chess_gui"
version = "0.1.0"
edition = "2021"
publish = false

[dependencies]
glfw = "*"
gl = "*"
glm = "=0.2.3"
freetype-rs = "*"
stb_image_rust = "*"
