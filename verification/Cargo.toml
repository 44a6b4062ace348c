[package]
name = "sdl3_to_evdev"
version = "0.1.0"
edition = "2021"
publish = false

[dependencies]
anyhow = "=1.0.104"
clap = { version = "=4.6.7", features = ["derive"] }
evdev = "=0.13.2"
nix = { version = "=0.31.3", features = ["fs"] }
sdl3 = { version = "=0.22.0", features = ["hidapi"] }
sdl3-sys = "=0.7.2"
serde = { version = "=1.0.229", features = ["derive"] }
toml = "=1.1.8"
