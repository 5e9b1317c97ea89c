[package]
name = "virtual_gpu"
version = "0.1.0"
edition = "2021"
publish = false

[dependencies]
glam = "*"
bon = "*"
tobj = "*"
image = { version = "*", default-features = false, features = ["jpeg", "png"] }
minifb = { version = "*", default-features = false, features = ["x11"] }
