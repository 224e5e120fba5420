[package]
name = "givetray"
version = "0.1.0"
edition = "2021"
publish = false

[dependencies]
shell-words = "*"
serde = { version = "*", features = ["derive"] }
toml = "*"
directories = "*"
zeroize = "*"
libc = "*"
async-channel = "*"
