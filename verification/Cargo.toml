[package]
name = "music_facts"
version = "0.1.0"
edition = "2021"
publish = false

[dependencies]
genanki-rs = "*"
