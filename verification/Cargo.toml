[package]
name = "confirm_overlay"
version = "0.1.0"
edition = "2021"
publish = false

[dependencies]
clap = { version = "4", features = ["derive"] }
gio = "*"
gtk4 = { version = "*", features = ["v4_12"] }
gtk4-layer-shell = "*"
