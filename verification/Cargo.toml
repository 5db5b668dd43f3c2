[package]
name = "robot_bin"
version = "0.1.0"
edition = "2021"
publish = false

[dependencies]
async-std = "=1.13.2"
parry2d = "=0.17.6"
