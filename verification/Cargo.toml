[package]
name = "tmod"
version = "0.1.0"
edition = "2021"
publish = false

[dependencies]
melon = "=0.15.2"
minifb = "=0.29.0"
failure = "=0.1.8"
# Not used directly: pins melon's msgpack dependency to a release that its
# rmp-serde 0.14 still compiles against; with a newer rmp, melon does not build.
rmp = "=0.8.9"
