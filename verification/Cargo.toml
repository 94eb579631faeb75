[package]
name = "dimi"
version = "0.1.0"
edition = "2021"
publish = false

[dependencies]
flume = "*"
lookit = "*"
pasts = "*"
smelling_salts = "*"
