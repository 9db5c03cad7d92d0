[package]
name = "sctd"
version = "0.1.0"
edition = "2021"
publish = false

[dependencies]
chrono = "0.4"
clap = "4"
env_logger = "*"
log = "0.4"
spa = "*"
x11 = { version = "2", features = ["xlib", "xrandr"] }
