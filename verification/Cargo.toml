[package]
name = "auravibe"
version = "0.1.0"
edition = "2021"
publish = false

[dependencies]
iced_core = "*"
iced_runtime = "*"
log = "*"
