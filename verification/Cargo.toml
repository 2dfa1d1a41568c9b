[package]
name = "troll_overlay"
version = "0.1.0"
edition = "2021"
publish = false

[dependencies]
rand = "=0.8.8"
notan = "0.9"
winapi = { version = "=0.3.9", features = ["winuser", "windef"] }
