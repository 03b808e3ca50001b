[package]
name = "social_preview"
version = "0.1.0"
edition = "2021"
rust-version = "1.95"
publish = false

[dependencies]
image = { version = "=0.25.10", default-features = false, features = ["jpeg", "png", "tiff"] }
kstring = "=2.0.2"
liquid = "=0.26.11"
resvg = "=0.48.1"
serde = { version = "=1.0.229", features = ["derive"] }
serde_json = "=1.0.154"
tempfile = "=3.27.0"
tiny-skia = "=0.12.0"
usvg = "=0.48.1"
walkdir = "=2.5.0"
