[package]
name = "range_guess"
version = "0.1.0"
edition = "2021"

[dependencies]
rand = "0.7"
structopt = "0.3"
term_size = "0.3"
