[package]
name = "uni_service"
version = "0.1.0"
edition = "2021"
publish = false

[dependencies]
ctrlc = "*"
dirs = "*"
libc = "*"
tokio = { version = "*", default-features = false, features = ["sync"] }
windows-service = "*"
