[package]
name = "lush"
version = "0.1.0"
edition = "2021"
publish = false

[dependencies]
clap = "4"
crossterm = "0.27"
home = "0.5"
path-absolutize = "3"
whoami = "1"

[dev-dependencies]
rand = "0.8"
test_dir = "0.2"
