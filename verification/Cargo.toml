[package]
name = "music_exercises"
version = "0.1.0"
edition = "2021"
publish = false

[dependencies]
clap = "2"
ctrlc = "3"
paw = "1"
rand = "0.7"
structopt = { version = "0.3", features = ["paw"] }
