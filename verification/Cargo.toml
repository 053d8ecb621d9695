[package]
name = "theme_manager"
version = "0.1.0"
edition = "2021"
publish = false

[dependencies]
chrono = "0.4"
clap = { version = "4", features = ["derive"] }
dirs = "*"
itertools = "*"
libc = "0.2"
log = "0.4"
log4rs = "*"
serde = { version = "1", features = ["derive"] }
serde_json = "1"
