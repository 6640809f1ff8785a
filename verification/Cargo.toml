[package]
name = "sourcestats"
version = "0.1.0"
edition = "2021"
publish = false

[dependencies]
byteorder = "=1.5.0"
bytes = "=0.4.12"
capnp = "0.19"
ring = "=0.17.14"
chrono = "=0.4.45"
mio = "=0.6.23"
slab = "=0.4.12"
crossbeam = "=0.7.3"
rayon = "=1.12.0"
diesel = { version = "=1.4.8", features = ["postgres", "chrono"] }
r2d2 = "=0.8.10"
r2d2-diesel = "=1.0.0"
log = "=0.4.35"
env_logger = "=0.6.2"
dotenv = "=0.13.0"
num_cpus = "=1.17.0"
failure = "=0.1.8"
