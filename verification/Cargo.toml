[package]
name = "reactive_window"
version = "0.1.0"
edition = "2021"
publish = false

[dependencies]
clock_ticks = "*"
pistoncore-input = "*"
pistoncore-window = "*"
