[package]
name = "tick_economy"
version = "0.1.0"
edition = "2021"
publish = false

[dependencies]
enum-iterator = "2"
rand = "0.8"
rand_distr = "0.4"
ratatui = { version = "0.26", default-features = false, features = ["termion"] }
termion = "3"
