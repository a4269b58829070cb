[package]
name = "sentinel"
version = "0.1.0"
edition = "2021"
publish = false

[dependencies]
anyhow = "1"
atty = "0.2"
byteorder = "1"
clap = { version = "4", features = ["derive"] }
csv = "1"
log = "0.4"
rust-embed = "8"
sameold = "*"
serde = { version = "1", features = ["derive"] }
serde_json = "1"
simple_logger = "*"
strum = "*"
tiny_http = "0.12"
ureq = "2"
