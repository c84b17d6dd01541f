[package]
name = "rlbuddy"
version = "0.1.0"
edition = "2021"
publish = false

[dependencies]
urlencoding = "2"
serde = { version = "1", features = ["derive"] }
serde_json = "1"
ureq = { version = "3", features = ["json"] }
discord-rich-presence = "*"
webbrowser = "1"
zip = { version = "*", default-features = false, features = ["deflate"] }
sysinfo = "*"
