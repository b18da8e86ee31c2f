[package]
name = "timg_rust"
version = "0.1.0"
edition = "2021"
publish = false

[dependencies]
base64 = "*"
image = { version = "*", default-features = false, features = ["png", "gif", "jpeg"] }
clap = { version = "*", features = ["derive"] }
crossterm = "*"
atty = "*"
rayon = "*"
sixel-sys = "*"
