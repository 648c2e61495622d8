[package]
name = "dir_archiver"
version = "0.1.0"
edition = "2021"
publish = false

[dependencies]
anyhow = "1"
camino = "1"
clap = { version = "4", features = ["derive"] }
ctrlc = "3"
flate2 = "1"
glob = "0.3"
human-size = "0.4"
notify = "6"
rayon = "1"
tar = "0.4"
