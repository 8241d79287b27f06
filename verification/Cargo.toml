[package]
name = "cfdi_csv"
version = "0.1.0"
edition = "2021"
publish = false

[dependencies]
minidom = "*"
rayon = "*"
eframe = { version = "*", default-features = false, features = ["glow", "x11"] }
rfd = { version = "*", default-features = false, features = ["xdg-portal", "async-std"] }
