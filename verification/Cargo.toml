[package]
name = "wsi_raster"
version = "0.1.0"
edition = "2021"
publish = false

[dependencies]
clap = { version = "4", features = ["derive"] }
ril = { version = "0.10", default-features = false, features = ["png", "resize"] }
