[package]
name = "badge_station"
version = "0.1.0"
edition = "2021"
publish = false

[dependencies]
base64 = "=0.22.1"
opencv = "=0.101.1"
printers = "=2.2.1"
