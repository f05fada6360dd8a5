[package]
name = "bevy_renderdoc"
version = "0.1.0"
edition = "2021"
publish = false

[dependencies]
renderdoc = "0.10"
sysinfo = "0.26"
bevy = { version = "0.9", default-features = false, features = ["bevy_render"] }
