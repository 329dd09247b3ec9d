[package]
name = "buildkit_llb"
version = "0.2.0"
edition = "2021"
publish = false

[dependencies]
prost = "*"
regex = "1"
serde_json = "1"
sha2 = "*"
