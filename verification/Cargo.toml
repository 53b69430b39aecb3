[package]
name = "rv_loader"
version = "0.1.0"
edition = "2021"
publish = false

[dependencies]
elf = "0.7"
libc = "0.2"
log = "0.4"
env_logger = "*"
ctrlc = "3"
clap = { version = "4", features = ["derive"] }
