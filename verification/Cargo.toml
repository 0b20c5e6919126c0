[package]
name = "rat_focus"
version = "0.1.0"
edition = "2021"
publish = false

[dependencies]
ratatui = "0.28"
rat-event = "*"
