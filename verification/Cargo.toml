[package]
name = "spectrusty-tutorial"
version = "0.1.0"
edition = "2021"
publish = false

[dependencies]
spectrusty = { version = "=0.4.0", features = ["audio"] }
spectrusty-utils = { version = "=0.4.0", features = ["minifb"] }
minifb = "=0.23.0"
rand = "=0.8.8"
log = "=0.4.34"
simple_logger = "=5.2.0"
rfd = { version = "=0.17.2", default-features = false, features = ["xdg-portal"] }
cpal = "=0.14.2"
winapi = { version = "=0.3.9", features = ["shellscalingapi", "winerror"] }
