[package]
name = "systemmor"
version = "0.1.0"
edition = "2021"
publish = false

[dependencies]
ratatui = "0.23"
crossterm = "0.27"
sysinfo = "0.29"
battery = "0.7"
