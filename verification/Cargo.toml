[package]
name = "glide_bridge"
version = "0.1.0"
edition = "2021"
publish = false

[dependencies]
bytes = "=1.12.1"
jni = "=0.21.1"
redis = "=1.7.1"
