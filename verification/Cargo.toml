[package]
name = "eunicode"
version = "0.1.0"
edition = "2021"
publish = false

[dependencies]
ammonia = "*"
arboard = { version = "*", default-features = false }
atty = "*"
charname = "*"
clap = { version = "*", features = ["derive"] }
deunicode = "*"
limace = "*"
linkify = "*"
prettytable-rs = "*"
rustrict = "*"
termwiz = "*"
ucd = "*"
unicode-security = "*"
