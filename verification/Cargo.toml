[package]
name = "build_n_fight"
version = "0.1.0"
edition = "2021"
publish = false

[dependencies]
bevy = { version = "0.15", default-features = false, features = ["bevy_window", "bevy_winit", "bevy_render", "bevy_core_pipeline", "bevy_sprite", "bevy_state", "x11"] }
hashbrown = "0.14"
rand = "0.8"
