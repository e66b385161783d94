[package]
name = "qr_code_styling"
version = "0.1.0"
edition = "2021"
publish = false

[dependencies]
fast_qr = "*"
base64 = "*"
fixedbitset = "*"
image = { version = "*", default-features = false, features = ["png", "jpeg", "webp"] }
resvg = { version = "*", default-features = false, features = ["raster-images"] }
