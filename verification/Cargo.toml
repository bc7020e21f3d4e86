[package]
name = "music_player"
version = "0.1.0"
edition = "2021"
publish = false

[dependencies]
audiotags = "0.5.0"
permutation = "0.4.1"
metadata = "0.1.13"
rodio = "0.19.0"
crossterm = "0.27.0"
ratatui = "0.26.3"
home = "0.5.12"
color-eyre = "*"
