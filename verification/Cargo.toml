[package]
name = "yajnir"
version = "0.1.0"
edition = "2021"
publish = false

[dependencies]
cesu8 = "*"
jni-sys = "*"
