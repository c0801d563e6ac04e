[package]
name = "piv_ccc"
version = "0.1.0"
edition = "2021"
publish = false

[dependencies]
getrandom = "0.1"
subtle-encoding = "0.5"
gumdrop = "*"
termcolor = "1"
