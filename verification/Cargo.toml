[package]
name = "will_it_dissolve"
version = "0.1.0"
edition = "2021"
publish = false

[dependencies]
tetra = "0.2"
rand = "0.7"
ron = "*"
serde = { version = "1", features = ["derive"] }
log = "0.4"
simple_logger = "*"
color-backtrace = "*"
