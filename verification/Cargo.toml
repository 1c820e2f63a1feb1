[package]
name = "signal-terminal"
version = "0.1.0"
edition = "2021"
publish = false

[dependencies]
rkyv = "0.8"
thiserror = "2"
