[package]
name = "frame_renderer"
version = "0.1.0"
edition = "2021"
publish = false

[dependencies]
gfx = "*"
gfx_device_gl = "*"
piston3d-gfx_voxel = "*"
piston = "*"
pistoncore-sdl2_window = "*"
vecmath = "*"
camera_controllers = "*"
fps_counter = "*"
shader_version = "*"
