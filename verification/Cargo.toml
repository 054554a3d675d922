[package]
name = "rhisper_core"
version = "0.1.0"
edition = "2021"
publish = false

[dependencies]
arboard = { version = "3", default-features = false, features = ["wayland-data-control"] }
clap = { version = "4", features = ["derive"] }
evdev = "*"
libc = "0.2"
reqwest = { version = "*", features = ["blocking", "multipart"] }
serde_json = "1"
