[package]
name = "plumcast"
version = "0.1.0"
edition = "2021"
publish = false

[dependencies]
atomic_immut = "=0.1.4"
bytecodec = "0.4"
fibers = "=0.1.13"
fibers_rpc = "0.2"
futures = "=0.1.31"
hyparview = "0.0.9"
plumtree = "0.0.5"
prometrics = "=0.1.13"
rand = "0.5"
slog = "=2.8.2"
trackable = "0.2"
