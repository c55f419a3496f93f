[package]
name = "ferrobot"
version = "0.1.0"
edition = "2021"
publish = false

[dependencies]
async-std = "=1.13.2"
cbindgen = "=0.29.4"
clap = { version = "=4.6.7", features = ["derive"] }
cxx = "=1.0.205"
derive_more = { version = "=2.1.1", features = ["display"] }
futures = "=0.3.34"
interoptopus = "=0.14.27"
interoptopus_backend_c = "=0.14.25"
lazy_static = "=1.5.1"
libc = "=0.2.191"
log = "=0.4.34"
syn = { version = "=3.0.9", features = ["full"] }
thiserror = "=2.0.21"
typed-builder = "=0.23.2"
uom = "=0.38.0"
