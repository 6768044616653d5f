[package]
name = "oceania_theme"
version = "0.1.0"
edition = "2021"
publish = false

[dependencies]
iced_style = "*"
