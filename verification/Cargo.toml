[package]
name = "inspyr"
version = "0.1.0"
edition = "2021"
publish = false

[dependencies]
rusqlite = { version = "*", features = ["bundled"] }
walkdir = "2"
notify = "*"
glib = "*"
glib-macros = "*"
gtk4 = "*"
libadwaita = "*"
gettext-rs = "*"
