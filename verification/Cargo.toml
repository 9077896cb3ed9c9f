[package]
name = "ansi_senor"
version = "0.1.0"
edition = "2021"
publish = false

[dependencies]
ansi-to-html = "*"
md5 = "*"
anyhow = "*"
clap = { version = "*", features = ["derive"] }
