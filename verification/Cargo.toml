[package]
name = "op_effects"
version = "0.1.0"
edition = "2021"
publish = false

[dependencies]
primitive-types = { version = "0.12", default-features = false, features = ["std"] }
revm = { version = "2", default-features = false, features = ["std", "k256"] }
