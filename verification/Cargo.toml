[package]
name = "nes_rs"
version = "0.1.0"
edition = "2021"
publish = false

[dependencies]
anyhow = "1"
blip_buf = "0.1"
cpal = "0.15"
crossbeam-channel = "0.5"
minifb = "0.25"
thiserror = "1"
strum_macros = "0.26"
