[package]
name = "m2m_translate"
version = "0.1.0"
edition = "2021"
publish = false

[dependencies]
rust-bert = "*"
tch = "*"
