[package]
name = "westworld"
version = "0.1.0"
edition = "2021"
publish = false

[dependencies]
# The macro crates of bevy 0.5 use parts of syn that only its `full` feature
# provides, and do not ask for the feature. async-trait asks for it, which
# lets them build; nothing else of it is used.
async-trait = "=0.1.59"
bevy_app = "=0.5.0"
bevy_ecs = "=0.5.0"
bevy_log = "=0.5.0"
rand = "=0.8.8"
wheel_timer = "=0.3.1"
