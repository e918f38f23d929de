[package]
name = "hushcrumbs"
version = "0.1.0"
edition = "2021"
publish = false

[dependencies]
base64 = "*"
clap = "*"
clap_complete = "*"
dirs = "*"
env_logger = "*"
indexmap = { version = "*", features = ["serde"] }
inquire = "*"
log = "*"
once_cell = "*"
prettytable-rs = "*"
ron = "*"
serde = { version = "*", features = ["derive"] }
serde_json = "*"
sha2 = "*"
