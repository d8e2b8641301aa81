[package]
name = "rzup"
version = "0.1.0"
edition = "2021"
publish = false

[dependencies]
anyhow = "1"
cfg-if = "1"
clap = { version = "4", features = ["derive"] }
dirs = "5"
downloader = { version = "0.2", default-features = false }
flate2 = "1"
fs2 = "0.4"
fs_extra = "1"
reqwest = { version = "0.11", default-features = false, features = ["json"] }
serde = { version = "1", features = ["derive"] }
tar = "0.4"
tempfile = "3"
termcolor = "1"
tokio = { version = "1", features = ["rt"] }
xz = "0.1"
