[package]
name = "rpmsg_async_notify"
version = "0.1.0"
edition = "2021"
publish = false

[dependencies]
nix = "0.24"
signal-hook = "0.3"
log = "0.4"
