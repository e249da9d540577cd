[package]
name = "clipboard_warrior"
version = "0.1.0"
edition = "2021"
publish = false

[dependencies]
clipboard = "0.5"
crossterm = "0.25"
itertools = "0.10"
serde = { version = "1", features = ["derive"] }
serde_json = "1"
thiserror = "1"
tui = "0.19"
