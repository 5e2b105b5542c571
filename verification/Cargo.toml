[package]
name = "cratex"
version = "0.2.0"
edition = "2021"
publish = false

[dependencies]
num_cpus = "*"
tempfile = "*"
indicatif = "*"
