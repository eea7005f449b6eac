[package]
name = "spacegame"
version = "0.1.0"
edition = "2021"
publish = false

[dependencies]
bevy = { version = "0.11", default-features = false }
bevy_turborand = "0.6"
bracket-geometry = "0.8"
bracket-pathfinding = "0.8"
crossterm = "0.27"
ratatui = "0.23"
simplelog = "0.12"
strum_macros = "0.25"
tui-textarea = "0.2"
