[package]
name = "lgmp_session"
version = "0.1.0"
edition = "2021"
publish = false

[dependencies]
ligmars = "*"
shared_memory = "*"
