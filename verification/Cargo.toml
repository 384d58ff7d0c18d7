[package]
name = "usbfs_device"
version = "0.1.0"
edition = "2021"
publish = false

[dependencies]
bitflags = "=1.3.2"
byteorder = "=1.5.0"
futures = "=0.1.31"
mio = "=0.6.23"
nix = "=0.12.1"
tokio = "=0.1.22"
usbfs-sys = "=0.1.0"
