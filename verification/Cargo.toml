[package]
name = "skie_draw"
version = "0.1.0"
edition = "2021"
publish = false

[dependencies]
etagere = "0.2"
wgpu = "24"
parking_lot = "0.12"
bytemuck = { version = "1", features = ["derive"] }
log = "0.4"
