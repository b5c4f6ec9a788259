[package]
name = "atc_core"
version = "0.1.0"
edition = "2021"
publish = false

[dependencies]
rand = "=0.8.8"
pancurses = "0.17"
argparse = "0.2"
