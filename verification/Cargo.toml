[package]
name = "smiley"
version = "0.1.0"
edition = "2021"
publish = false

[dependencies]
clap = { version = "4", features = ["derive"] }
clap-verbosity-flag = "*"
env_logger = "*"
indoc = "2"
itertools = "0.10"
log = "0.4"
