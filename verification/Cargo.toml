[package]
name = "xwinctl"
version = "0.1.0"
edition = "2021"

[dependencies]
xcb = "1"
parking_lot = "0.12"
