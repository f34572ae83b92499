[package]
name = "sidebar_resize"
version = "0.1.0"
edition = "2021"
publish = false

[dependencies]
gtk4 = { version = "*", features = ["v4_12"] }
libadwaita = { version = "*" }
