[package]
name = "snake"
version = "0.1.0"
edition = "2021"
publish = false

[dependencies]
bevy = { version = "=0.7.0", default-features = false, features = ["bevy_winit", "render", "x11"] }
# bevy's derive crates parse whole items and leave it to others to switch on
# syn's "full" feature; darling does.
darling = "=0.13.4"
rand = "=0.8.8"
