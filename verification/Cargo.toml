[package]
name = "molyuuctl"
version = "0.1.0"
edition = "2021"
publish = false

[dependencies]
rust-ini = "=0.21.3"
clap = { version = "4", features = ["cargo"] }
toml = "*"
libc = "0.2"
dbus = { version = "0.9", features = ["vendored"] }
log = "0.4"
colored = "*"
supports-color = "*"
