[package]
name = "dotbackup"
version = "0.1.0"
edition = "2021"
publish = false

[dependencies]
dirs = "*"
glob = "*"
saphyr = "*"
