[package]
name = "flux"
version = "0.1.0"
edition = "2021"
publish = false

[dependencies]
fnv = "=1.0.7"
num_cpus = "=1.17.0"
rand = "=0.7.3"
serde = { version = "=1.0.229", features = ["derive"] }
serde_json = "=1.0.154"
sdl2 = { version = "=0.34.5", features = ["unsafe_textures"] }
image = { version = "=0.23.14", default-features = false, features = ["png"] }
