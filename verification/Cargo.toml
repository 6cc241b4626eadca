[package]
name = "open_gl_rs"
version = "0.1.0"
edition = "2021"
publish = false

[dependencies]
anyhow = "=1.0.104"
gl = "=0.14.0"
glfw = "=0.63.0"
nalgebra-glm = "=0.21.0"
image = "=0.25.10"
imgui = "=0.12.0"
imgui-glow-renderer = "=0.13.0"
glow = "=0.14.2"
tracing = "=0.1.44"
tracing-subscriber = { version = "=0.3.23", features = ["env-filter"] }
