[package]
name = "dot013_mdparser"
version = "0.1.0"
edition = "2021"
publish = false

[dependencies]
url = { version = "=2.5.8", features = ["serde"] }
mime_guess = "=2.0.5"
itertools = "=0.12.1"
serde = { version = "=1.0.229", features = ["derive"] }
serde_json = "=1.0.154"
serde_yaml = "=0.9.34"
serde_with = "=3.24.0"
mime_serde_shim = "=0.2.2"
color-art = "=0.3.9"
comrak = { version = "=0.22.0", default-features = false }
clap = { version = "=4.6.7", features = ["derive"] }
clio = { version = "=0.3.5", features = ["clap-parse"] }
