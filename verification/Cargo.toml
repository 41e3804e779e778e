[package]
name = "mkv_batch"
version = "0.1.0"
edition = "2021"
publish = false

[dependencies]
regex = "*"
titlecase = "*"
lexical-sort = "*"
rand = "*"
serde = "*"
serde_derive = "*"
serde_json = "*"
walkdir = "*"
trash = "*"
system_shutdown = "*"
