[package]
name = "tuiserve"
version = "0.1.0"
edition = "2021"
publish = false

[dependencies]
rand = "=0.10.3"
crossterm = "=0.29.0"
terminput = "=0.5.16"
terminput-crossterm = "=0.4.12"
ratatui = "=0.30.2"
russh = "=0.65.1"
tokio = { version = "=1.54.1", features = ["full"] }
color-eyre = "=0.6.5"
