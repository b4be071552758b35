[package]
name = "todo_tui"
version = "0.1.0"
edition = "2021"
publish = false

[dependencies]
crossterm = "0.20"
tempfile = "3"
unicode-segmentation = "1"
