[package]
name = "tor_sys"
version = "0.1.0"
edition = "2021"
publish = false

[dependencies]
autotools = "0.2"
cc = "1"
fs_extra = "1"
