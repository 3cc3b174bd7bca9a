[package]
name = "color_wheel"
version = "0.1.0"
edition = "2021"
publish = false

[dependencies]
rayon = "1"
oklab = "*"
fast_image_resize = "2"
image = { version = "0.24", default-features = false, features = ["png"] }
clap = { version = "4", features = ["derive"] }
