[package]
name = "pi_svg"
version = "0.1.0"
edition = "2021"
publish = false

[dependencies]
usvg = "=0.9.1"
gl = "=0.14.0"
image = { version = "=0.24.9", default-features = false, features = ["png"] }
log = "=0.4.34"
pathfinder_color = "=0.5.0"
pathfinder_content = "=0.5.0"
pathfinder_geometry = "=0.5.1"
pathfinder_gl = "=0.5.0"
pathfinder_gpu = "=0.5.0"
pathfinder_renderer = "=0.5.0"
pathfinder_resources = "=0.5.0"
pathfinder_svg = "=0.5.0"
pi_hash = "=0.1.1"
rayon = "=1.12.0"
thiserror = "=1.0.69"
