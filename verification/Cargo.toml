[package]
name = "service_status"
version = "0.1.0"
edition = "2021"

[dependencies]
color-eyre = "0.6"
crossterm = "0.27"
lazy_static = "1"
libc = "0.2"
ratatui = "0.27"
