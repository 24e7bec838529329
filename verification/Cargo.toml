[package]
name = "ocpncord_tui"
version = "0.1.0"
edition = "2021"
publish = false

[dependencies]
ratatui = "*"
ratatui-core = "*"
futures = "0.3"
futures-core = "0.3"
