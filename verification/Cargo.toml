[package]
name = "tdl_presale"
version = "0.1.0"
edition = "2021"
publish = false

[dependencies]
anchor-lang = "=0.31.2"

[dev-dependencies]
sha3 = "=0.12.0"
