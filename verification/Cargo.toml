[package]
name = "terrain_preprocess"
version = "0.1.0"
edition = "2021"
publish = false

[dependencies]
ndarray = "*"
num = "*"
thiserror = "*"
rayon = "*"
thread_local = "*"
itertools = "*"
slab = "*"
tiff-core = "*"
tiff-reader = "*"
tiff-writer = "*"
geotiff-reader = "*"
