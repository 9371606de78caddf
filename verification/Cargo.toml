[package]
name = "pbs_engine"
version = "0.1.0"
edition = "2021"
publish = false

[dependencies]
itertools = "*"
gl = "*"
image = "0.22"
serde = { version = "1", features = ["derive"] }
ron = "*"
nalgebra-glm = "*"
glutin = "0.26"
crevice = "*"
mint = "*"
