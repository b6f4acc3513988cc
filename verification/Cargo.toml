[package]
name = "tejat"
version = "0.1.0"
edition = "2021"
publish = false

[dependencies]
url = "=2.5.8"
mime = "=0.3.17"
thiserror = "=1.0.69"
time = "=0.3.55"
