[package]
name = "synth_roof"
version = "0.1.0"
edition = "2021"
publish = false

[dependencies]
bytemuck = { version = "1", features = ["derive"] }
glam = { version = "*", features = ["bytemuck"] }
half = { version = "2", features = ["bytemuck"] }
libm = "0.2"
rand = "0.9"
rand_chacha = "0.9"
serde = { version = "1", features = ["derive"] }
serde_json = "1"
thiserror = "2"
wgpu = "*"
