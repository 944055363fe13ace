[package]
name = "dftbplus_build"
version = "0.1.0"
edition = "2021"
publish = false

[dependencies]
bindgen = "=0.73.2"
path_abs = "=0.4.1"
pkg-config = "=0.3.34"
walkdir = "=2.5.0"
