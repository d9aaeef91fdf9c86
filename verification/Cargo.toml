[package]
name = "tf_log_parser"
version = "0.1.0"
edition = "2021"
publish = false

[dependencies]
memchr = "*"
steamid-ng = "*"
serde = "*"
serde_json = "*"
