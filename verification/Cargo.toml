[package]
name = "icy_draw"
version = "0.1.0"
edition = "2021"
publish = false

[dependencies]
icy_sauce = "0.4.0"
