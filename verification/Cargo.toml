[package]
name = "fcntl_tool"
version = "0.1.0"
edition = "2021"
publish = false

[dependencies]
nix = { version = "=0.26.4", features = ["fs"] }
anyhow = "=1.0.104"
clap = { version = "=4.6.7", features = ["derive"] }
