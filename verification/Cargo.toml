[package]
name = "edges"
version = "0.1.0"
edition = "2021"
publish = false

[dependencies]
libc = "0.2"
nix = { version = "*", features = ["process", "signal"] }
x11 = { version = "*", features = ["xlib", "xrandr", "xinput"] }
structopt = "0.3"
configparser = "*"
dirs = "*"
