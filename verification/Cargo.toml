[package]
name = "pomodoro"
version = "0.1.0"
edition = "2021"
publish = false

[dependencies]
crossterm = "0.25"
notify-rust = { version = "4", default-features = false, features = ["z"] }
ticker = "0.1"
tui = "0.19"
