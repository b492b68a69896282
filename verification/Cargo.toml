[package]
name = "raytracer"
version = "0.1.0"
edition = "2021"
publish = false

[dependencies]
rand = "=0.8.8"
console = "=0.16.6"
image = "=0.23.14"
indicatif = "=0.16.2"
tobj = "=3.2.5"
