[package]
name = "reaper_touchbar"
version = "0.1.0"
edition = "2021"
publish = false

[dependencies]
reaper-low = "=0.1.0"
reaper-medium = "=0.1.0"
reaper-macros = "=0.1.0"
rubrail = "=0.9.1"
