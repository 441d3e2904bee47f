[package]
name = "svg_mesh"
version = "0.1.0"
edition = "2021"
publish = false

[dependencies]
anyhow = "=1.0.104"
async-trait = "=0.1.50"
bevy = { version = "=0.6.1", default-features = false, features = ["render"] }
lyon_tessellation = "=1.0.22"
thiserror = "=1.0.69"
usvg = "=0.48.1"
