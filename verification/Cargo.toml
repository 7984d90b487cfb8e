[package]
name = "midi_engine"
version = "0.1.0"
edition = "2021"
publish = false

[dependencies]
toml = "*"
parking_lot = "*"
notify = "*"
directories = "*"
