[package]
name = "desktop_tui"
version = "0.1.0"
edition = "2021"
publish = false

[dependencies]
anyhow = "*"
clap = { version = "*", features = ["derive"] }
crossterm = "*"
libc = "*"
nix = { version = "*", features = ["term", "signal", "process", "fs"] }
tokio = { version = "*", features = ["full"] }
