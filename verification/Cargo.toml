[package]
name = "derived_state"
version = "0.1.0"
edition = "2021"
publish = false

[dependencies]
fixed = "=1.31.0"
smolset = "=1.3.1"
smallvec = "=1.16.4"
bevy = { version = "=0.6.1", default-features = false }
bevy_rapier3d = { version = "=0.12.1", default-features = false, features = ["dim3"] }
rapier3d = { version = "=0.12.0-alpha.0", default-features = false, features = ["dim3", "f32"] }
