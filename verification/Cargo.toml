[package]
name = "render_pass"
version = "0.1.0"
edition = "2021"
publish = false

[dependencies]
smallvec = "1"
