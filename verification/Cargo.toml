[package]
name = "editor_command"
version = "0.1.0"
edition = "2021"
publish = false

[dependencies]
shellish_parse = "*"
