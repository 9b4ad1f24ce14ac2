[package]
name = "wgpu_external_frame"
version = "0.1.0"
edition = "2021"
publish = false

[dependencies]
ash = "=0.38.0"
glow = "0.17"
libc = "=0.2.191"
libloading = "0.8"
objc2 = "0.6"
objc2-core-foundation = "0.3"
objc2-io-surface = "0.3"
objc2-metal = "0.3"
wgpu = "29"
windows = { version = "0.62", features = ["Win32_Foundation", "Win32_Graphics_Direct3D12", "Win32_System_Threading"] }
