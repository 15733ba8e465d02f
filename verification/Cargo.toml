[package]
name = "dvctree"
version = "0.1.0"
edition = "2021"
publish = false

[dependencies]
relative-path = "*"
serde_yaml = "*"
text-template = "*"
