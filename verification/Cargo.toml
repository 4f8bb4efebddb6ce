[package]
name = "tablet_driver"
version = "0.1.0"
edition = "2021"
publish = false

[dependencies]
clap = { version = "4", features = ["derive"] }
directories = "5"
evdev = "=0.12.2"
rusb = "0.9"
serde = { version = "1", features = ["derive"] }
serde_json = "1"
signal-hook = "0.3"
