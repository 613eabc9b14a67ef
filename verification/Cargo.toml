[package]
name = "openterface"
version = "0.1.0"
edition = "2021"
publish = false

[dependencies]
zune-jpeg = "0.4"
zeroize = "1"
thiserror = "2"
clap = { version = "4", features = ["derive", "env"] }
serialport = { version = "4", default-features = false }
v4l = "*"
tracing = "0.1"
tracing-subscriber = { version = "0.3", features = ["env-filter", "fmt"] }
winit = "0.30"
wgpu = "*"
pollster = "0.4"
raw-window-handle = "0.6"
smithay-clipboard = "*"
