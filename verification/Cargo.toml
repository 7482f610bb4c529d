[package]
name = "potnet"
version = "0.1.0"
edition = "2021"
publish = false

[dependencies]
ipnet = "2"
walkdir = "2"
