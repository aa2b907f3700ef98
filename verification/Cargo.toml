[package]
name = "bouncing_box"
version = "0.1.0"
edition = "2021"
publish = false

[dependencies]
anyhow = "1"
jni = "0.19"
log = "0.4"
ndk-glue = { version = "0.7", features = ["logger"] }
pixels = "0.9"
winit = "0.27"
