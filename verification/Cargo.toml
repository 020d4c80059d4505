[package]
name = "crossterm_terminal"
version = "0.3.2"
edition = "2021"
publish = false

[dependencies]
crossterm_cursor = "=0.4.0"
crossterm_utils = "=0.4.0"
crossterm_winapi = "=0.3.0"
libc = "0.2"
serde = { version = "=1.0.229", features = ["derive"] }
