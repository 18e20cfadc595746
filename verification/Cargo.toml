[package]
name = "brisc"
version = "0.1.0"
edition = "2021"
publish = false

[dependencies]
elf = "*"
hashbrown = "*"
thiserror = "*"
tracing = "*"
