[package]
name = "chess_board"
version = "0.1.0"
edition = "2021"
publish = false

[dependencies]
bevy = { version = "=0.6.1", default-features = false, features = ["render", "bevy_winit", "x11"] }
bevy_mod_picking = "=0.5.5"
num_enum_derive = { version = "=0.5.11", features = ["complex-expressions"] }
