[package]
name = "goldenrod"
version = "0.1.0"
edition = "2021"
publish = false

[dependencies]
bevy_ecs = "0.16"
bytemuck = "1"
derive_deref = "1"
egui = "0.31"
egui-wgpu = "0.31"
egui-winit = "0.31"
env_logger = "0.11"
glam = "0.29"
log = "0.4"
pollster = "0.4"
regex = "1"
wgpu = "24"
winit = "0.30"
