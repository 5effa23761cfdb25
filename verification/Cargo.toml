[package]
name = "miv"
version = "0.1.0"
edition = "2021"
publish = false

[dependencies]
tree-sitter-highlight = "*"
tree-sitter-rust = "*"
crossterm = "*"
ratatui = "*"
clap = { version = "*", features = ["derive"] }
