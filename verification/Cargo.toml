[package]
name = "clack_params"
version = "0.1.0"
edition = "2021"
publish = false

[dependencies]
clap-sys = "*"
clack-common = "*"
clack-host = "*"
