[package]
name = "micro_visualizer"
version = "0.1.0"
edition = "2021"
publish = false

[dependencies]
anyhow = "=1.0.104"
egui = "=0.26.2"
glam = "=0.25.0"
kira = "=0.8.7"
palette = "=0.7.7"
rfd = "=0.17.2"
