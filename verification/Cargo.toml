[package]
name = "sdf_peck"
version = "0.1.0"
edition = "2021"
publish = false

[dependencies]
approx = "=0.5.1"
avian3d = { version = "=0.3.1", default-features = false, features = ["3d", "f32", "parry-f32"] }
bevy = { version = "=0.16.1", default-features = false }
bevy_math = "=0.16.1"
bevy_prototype_sdf = "=0.1.0"
