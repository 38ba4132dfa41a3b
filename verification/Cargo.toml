[package]
name = "image_sorter"
version = "0.1.0"
edition = "2021"
publish = false

[dependencies]
anyhow = "1"
crossbeam-channel = "0.5"
expanduser = "*"
infer = "*"
ratatui = { version = "0.23", default-features = false, features = ["termion"] }
structopt = "0.3"
subprocess = "0.2"
termion = "2"
tico = "*"
