[package]
name = "zprs"
version = "0.1.0"
edition = "2021"
publish = false

[dependencies]
ansi_term = "0.12"
clap = "2"
dirs = "*"
git2 = { version = "*", default-features = false }
tico = "*"
