[package]
name = "metadata_extractor"
version = "0.1.0"
edition = "2021"
publish = false

[dependencies]
kamadak-exif = "*"
serde_json = "*"
wasm-bindgen = "*"
