[package]
name = "apple_rs_sys"
version = "0.1.0"
edition = "2021"
publish = false

[dependencies]
uuid = { version = "1", features = ["v4"] }
objc = "0.2"
objc_id = "0.1"
lazy_static = "1"
