[package]
name = "avifpixart"
version = "0.1.0"
edition = "2021"
publish = false

[dependencies]
bytemuck = "=1.25.2"
pic-scale = "=0.6.15"
yuv = { version = "=0.8.19", features = ["ycgco_r_type"] }
