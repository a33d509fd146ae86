[package]
name = "material_you_derive_palette"
version = "0.1.0"
edition = "2021"
publish = false

[dependencies]
anyhow = "=1.0.104"
image = "=0.25.10"
material-colors = "=0.4.2"
