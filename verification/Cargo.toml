[package]
name = "kanban_ui"
version = "0.1.0"
edition = "2021"
publish = false

[dependencies]
chrono = "0.4"
log = "0.4"
textwrap = "0.16"
tui = { version = "0.19", default-features = false }
tui-logger = "0.8"
