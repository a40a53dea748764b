[package]
name = "request_builder"
version = "0.1.0"
edition = "2021"
publish = false

[dependencies]
hyper = "1"
http = "1"
serde = "1"
serde_json = "1"
bincode = "1"
