[package]
name = "protoqueue"
version = "0.1.0"
edition = "2021"
publish = false

[dependencies]
actix = "*"
actix-files = "*"
actix-web = "*"
actix-web-actors = "*"
log = "*"
pretty_env_logger = "*"
