[package]
name = "singleflight"
version = "0.1.0"
edition = "2021"
publish = false

[dependencies]
hashbrown = "*"
parking_lot = "*"

[dev-dependencies]
crossbeam-utils = "*"
