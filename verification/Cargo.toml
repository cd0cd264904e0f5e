[package]
name = "wr_glyph_rasterizer"
version = "0.1.0"
edition = "2021"
publish = false

[dependencies]
fontdue = "=0.9.5"
swash = "=0.1.19"
font-index = "=0.2.0"
ttf-parser = "=0.25.1"
usvg = "=0.48.1"
resvg = "=0.48.1"
tiny-skia = "=0.12.0"
parking_lot = "=0.13.0"
log = "=0.4.34"
