[package]
name = "alp_and_run"
version = "0.1.0"
edition = "2021"
publish = false

[dependencies]
bevy = { version = "=0.1.3", default-features = false, features = ["bevy_gltf", "bevy_wgpu", "bevy_winit", "png", "hdr"] }
bevy_tiled = "=0.0.1"
notify = "=5.0.0-pre.2"
