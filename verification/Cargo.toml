[package]
name = "openwire"
version = "0.1.0"
edition = "2021"
publish = false

[dependencies]
anyhow = "=1.0.104"
dirs = "=6.0.0"
libspa = "=0.9.2"
pipewire = "=0.9.2"
rdev = "=0.5.3"
ringbuf = "=0.4.8"
rustfft = "=6.4.1"
serde = { version = "=1.0.229", features = ["derive"] }
symphonia = { version = "=0.5.5", features = ["all"] }
toml = "=0.8.23"
