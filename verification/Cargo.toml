[package]
name = "pegasus"
version = "0.1.0"
edition = "2021"
publish = false

[dependencies]
gfx = "=0.12.2"
specs = "=0.7.1"

[dev-dependencies]
gfx_core = "=0.4.0"
