[package]
name = "forge_core"
version = "0.1.0"
edition = "2021"
publish = false

[dependencies]
image = { version = "0.25", default-features = false, features = ["png", "jpeg"] }
libc = "0.2"
log = "0.4"
rustfft = "6"
thiserror = "1"
