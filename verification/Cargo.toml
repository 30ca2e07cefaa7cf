[package]
name = "pallet-kitties"
version = "0.1.0"
edition = "2021"
publish = false

[dependencies]
frame-support = "*"
frame-system = "*"
sp-io = "*"
scale-info = { version = "*", features = ["derive"] }
log = "*"
