[package]
name = "scene_graph"
version = "0.1.0"
edition = "2021"
publish = false

[dependencies]
gl = "0.14"
glutin = "0.24"
nalgebra-glm = "*"
tobj = "2.0"
