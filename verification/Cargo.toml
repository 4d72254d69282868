[package]
name = "systemd_manager_tui"
version = "0.1.0"
edition = "2021"
publish = false

[dependencies]
chrono = "0.4"
zbus = "*"
zvariant = "*"
ratatui = "*"
crossterm = "*"
color-eyre = "0.6"
textwrap = "0.16"
rayon = "1"
