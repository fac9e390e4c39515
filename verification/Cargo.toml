[package]
name = "zk_token_pod"
version = "0.1.0"
edition = "2021"
publish = false

[dependencies]
bytemuck = { version = "*", features = ["min_const_generics"] }
curve25519-dalek = "*"
