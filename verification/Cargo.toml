[package]
name = "photosort"
version = "1.0.0"
edition = "2021"
publish = false

[dependencies]
clap = "3"
kamadak-exif = "0.5"
