[package]
name = "symbios_ground_lab"
version = "0.1.0"
edition = "2021"
publish = false

[dependencies]
bytemuck = "1"
image = { version = "0.25", default-features = false, features = ["png"] }
serde = { version = "1", features = ["derive"] }
serde_json = "1"
rand = "0.9"
rand_pcg = "0.9"
symbios-ground = "*"
symbios-tensor = "*"
symbios-shape = "*"
