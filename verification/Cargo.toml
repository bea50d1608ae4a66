[package]
name = "sworkstyle"
version = "2.0.2"
edition = "2021"
publish = false

[dependencies]
regex = "1"
toml = { version = "0.8", features = ["preserve_order"] }
log = "0.4"
simple_logger = "*"
swayipc-async = "*"
async-std = { version = "1", features = ["attributes"] }
async-io = "*"
futures-lite = "*"
inotify = "*"
ctrlc = "*"
dirs = "*"
fslock = "*"
