[package]
name = "toy_ray_tracer"
version = "0.1.0"
edition = "2021"
publish = false

[dependencies]
fastrand = "1.9.0"
url = "2.5.8"
anyhow = "1.0.104"
serde = { version = "1.0.229", features = ["derive"] }
serde_json = "1.0.154"
tobj = "3.2.5"
image = "0.24.9"
clap = { version = "3.2.25", features = ["derive"] }
nalgebra = "0.32.6"
schemars = "0.8.22"
log = "0.4.35"
rquickjs = "0.1.7"
easy-gltf = "*"
