[package]
name = "imgpress"
version = "0.1.0"
edition = "2021"
publish = false

[dependencies]
image = "=0.25.10"
png = "=0.18.1"
oxipng = { version = "=10.2.1", default-features = false }
imagequant = { version = "=4.4.1", default-features = false }
rgb = "=0.8.53"
bytemuck = "=1.25.2"
rayon = "=1.12.0"
walkdir = "=2.5.0"
