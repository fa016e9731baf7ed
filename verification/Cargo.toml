[package]
name = "gl_pipeline"
version = "0.1.0"
edition = "2021"
publish = false

[dependencies]
beryllium = "=0.13.3"
bytemuck = "=1.25.2"
ogl33 = "=0.2.0"
