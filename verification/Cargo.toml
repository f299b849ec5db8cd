[package]
name = "engine"
version = "0.1.0"
edition = "2021"
publish = false

[dependencies]
wavefront_obj = "=11.0.0"
tobj = "=4.0.5"
serde = { version = "=1.0.229", features = ["derive"] }
ron = "=0.12.3"
thiserror = "=2.0.21"
log = "=0.4.35"
env_logger = "=0.11.11"
nalgebra = "=0.35.0"
anyhow = "=1.0.104"
image = { version = "*", default-features = false, features = ["png"] }
