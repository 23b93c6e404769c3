[package]
name = "zerotier_service"
version = "0.1.0"
edition = "2021"
publish = false

[dependencies]
clap = "2"
dialoguer = "0.10"
hex = "0.4"
hyper = "0.14"
serde_json = "1"
