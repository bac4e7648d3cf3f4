[package]
name = "render_levels"
version = "0.1.0"
edition = "2021"
publish = false

[dependencies]
glam = "=0.33.12"
bytemuck = { version = "=1.25.2", features = ["derive"] }
obj-rs = "*"
