[package]
name = "podfetch"
version = "0.1.0"
edition = "2021"
publish = false

[dependencies]
chrono = "0.4"
crossterm = "0.28"
curl = "0.4"
feed-rs = "*"
ratatui = "0.29"
