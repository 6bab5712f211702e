[package]
name = "d3os_virtio"
version = "0.1.0"
edition = "2021"
publish = false

[dependencies]
bitflags = "=2.13.2"
log = "=0.4.35"
pci_types = "=0.10.1"
spin = "=0.10.1"
x86_64 = { version = "=0.15.5", default-features = false, features = ["instructions"] }
zerocopy = { version = "=0.8.63", features = ["alloc"] }
