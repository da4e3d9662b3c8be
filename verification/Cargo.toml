[package]
name = "wx_utils"
version = "0.1.0"
edition = "2021"
publish = false

[dependencies]
key-chord = "*"
live-region = "*"
patois = "0.2.4"
wxdragon = "0.9.24"
