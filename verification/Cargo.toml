[package]
name = "diplomatic_bag"
version = "0.3.1"
edition = "2021"
publish = false

[dependencies]
crossbeam-channel = "=0.5.17"
once_cell = "=1.21.4"

[dev-dependencies]
crossbeam-utils = "=0.8.23"
rand = "=0.8.8"
slotmap = "=1.1.1"
