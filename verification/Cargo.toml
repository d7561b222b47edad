[package]
name = "neuralforge"
version = "0.1.0"
edition = "2021"
publish = false

[dependencies]
ash = "0.37"
once_cell = "1"
gtk4 = { version = "0.9", features = ["v4_10"] }
libadwaita = { version = "0.7", features = ["v1_5"] }
glib = "0.20"
gio = "0.20"
