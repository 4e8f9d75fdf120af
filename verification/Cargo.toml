[package]
name = "span_coords"
version = "0.1.0"
edition = "2021"
publish = false

[dependencies]
facet-core = "0.27.1"
spez = "0.1.2"
