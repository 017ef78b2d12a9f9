[package]
name = "voxel_client"
version = "0.1.0"
edition = "2021"
publish = false

[dependencies]
winit = { version = "0.30", default-features = false, features = ["x11", "rwh_06"] }
bytemuck = { version = "1", features = ["derive"] }
instant = "0.1"
log = "0.4"
