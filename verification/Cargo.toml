[package]
name = "pomodoro"
version = "0.1.0"
edition = "2021"
publish = false

[dependencies]
anyhow = "=1.0.104"
clap = "=2.34.0"
crossterm = "=0.27.0"
emojis = "=0.6.4"
iced = { version = "=0.10.0", default-features = false, features = ["smol"] }
ratatui = "=0.24.0"
tui-big-text = "=0.2.1"
