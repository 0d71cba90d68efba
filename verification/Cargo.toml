[package]
name = "kylin_oracle"
version = "0.1.0"
edition = "2021"
publish = false

[dependencies]
parity-scale-codec = { version = "*", features = ["derive"] }
scale-info = { version = "*", features = ["derive"] }
log = "*"
frame-support = "*"
frame-system = "*"
sp-core = "*"
sp-io = "*"
sp-runtime = "*"
sp-std = "*"
staging-xcm = "*"
