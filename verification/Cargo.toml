[package]
name = "ratiosplit"
version = "0.1.0"
edition = "2021"
publish = false

[dependencies]
i3ipc = "0.10"
rust-ini = "*"
log = "0.4"
shellexpand = "*"
simplelog = "0.8"
