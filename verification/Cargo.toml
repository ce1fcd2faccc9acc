[package]
name = "term_chat"
version = "0.1.0"
edition = "2021"
publish = false

[dependencies]
serde_json = "*"
unicode-width = "*"
crossterm = "*"
ratatui = "*"
