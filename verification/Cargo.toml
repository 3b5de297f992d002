[package]
name = "kartina"
version = "0.1.0"
edition = "2021"
publish = false

[dependencies]
bytemuck = { version = "1", features = ["derive"] }
cgmath = "0.18"
futures = { version = "0.3", default-features = false, features = ["executor"] }
minimp3 = "0.5"
winit = { version = "0.29", default-features = false, features = ["x11", "rwh_06"] }
