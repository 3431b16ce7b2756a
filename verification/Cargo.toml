[package]
name = "tile_world"
version = "0.1.0"
edition = "2021"
publish = false

[dependencies]
rand = "=0.8.8"
noise = "=0.8.2"
num-traits = "0.2"
macroquad = "=0.3.26"
once_cell = "=1.21.4"
