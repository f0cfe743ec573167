[package]
name = "gdevd"
version = "0.1.0"
edition = "2021"
publish = false

[dependencies]
hex = "=0.4.3"
rust-ini = "=0.21.3"
rusb = "=0.9.4"
dbus = { version = "=0.9.12", features = ["vendored"] }
dbus-tree = "=0.9.2"
signal-hook = "=0.3.18"
simple_logger = "=5.2.0"
log = "=0.4.34"
structopt = "=0.3.26"
