[package]
name = "artifact_watch"
version = "0.1.0"
edition = "2021"
publish = false

[dependencies]
regex = "*"
glob = "*"
flate2 = "*"
tar = "*"
clap = { version = "*", features = ["derive"] }
notify = "*"
open = "*"
