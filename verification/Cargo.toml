[package]
name = "presenterm"
version = "0.1.0"
edition = "2021"
publish = false

[dependencies]
once_cell = "1"
syntect = { version = "5", default-features = false, features = ["default-fancy"] }
tempfile = "3"
thiserror = "1"
