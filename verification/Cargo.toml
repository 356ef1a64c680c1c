[package]
name = "zoinks"
version = "0.1.0"
edition = "2021"
publish = false

[dependencies]
heck = "0.3"
regex = "1"
serde = { version = "1", features = ["derive"] }
serde_json = "1"
indexmap = { version = "1", features = ["serde"] }
proc-macro2 = "1"
quote = "1"
syn = "1"
log = "0.4"
clap = "2"
env_logger = "0.9"
