[package]
name = "got_ur_logs_uwu"
version = "0.1.0"
edition = "2021"
publish = false

[dependencies]
handlebars = "*"
