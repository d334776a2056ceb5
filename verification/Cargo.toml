[package]
name = "dotfiles"
version = "0.1.0"
edition = "2021"

[dependencies]
clap = { version = "4", features = ["derive"] }
dirs = "*"
git2 = "*"
ssh2-config = "*"
