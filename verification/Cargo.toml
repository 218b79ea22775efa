[package]
name = "rs_lines"
version = "0.1.0"
edition = "2021"
publish = false

[dependencies]
rand = "0.8"
gtk = "0.18"
gio = "0.18"
glib = "0.18"
cairo-rs = "0.18"
