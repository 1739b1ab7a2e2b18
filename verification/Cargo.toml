[package]
name = "gravyan"
version = "0.2.7"
edition = "2021"
publish = false

[dependencies]
crossterm = "0.28"
ratatui = "0.29"
