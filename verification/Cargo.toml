[package]
name = "gridview"
version = "0.1.0"
edition = "2021"
publish = false

[dependencies]
crossterm = "*"
noise = "*"
ratatui = "*"
simplelog = "*"
