[package]
name = "tasklist"
version = "0.1.0"
edition = "2021"
publish = false

[dependencies]
json = "0.12"
tiny_http = "0.12"
tinyweb = "*"
