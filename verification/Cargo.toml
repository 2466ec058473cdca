[package]
name = "browserware"
version = "0.1.0"
edition = "2021"
publish = false

[dependencies]
serde = { version = "*", features = ["derive"] }
serde_json = "*"
clap = { version = "*", features = ["derive"] }
plist = "*"
core-foundation = "*"
home = "*"
xdg = "*"
