[package]
name = "lasgrep"
version = "0.1.0"
edition = "2021"
publish = false

[dependencies]
chrono = "*"
clap = "*"
geo = "*"
las = "*"
regex = "*"
semver = "*"
uuid = "*"
walkdir = "*"
wkt = "*"
