[package]
name = "avif_pixels"
version = "0.1.0"
edition = "2021"
publish = false

[dependencies]
image = { version = "=0.25.10", default-features = false, features = ["png", "jpeg"] }
imgref = "=1.12.3"
load_image = "=3.5.0"
napi = "=2.16.17"
napi-derive = "=2.16.13"
ravif = { version = "=0.11.20", default-features = false, features = ["threading"] }
rgb = "=0.8.53"

[dev-dependencies]
avif-parse = "=1.4.0"
