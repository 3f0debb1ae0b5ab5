[package]
name = "lc_3_vm"
version = "0.1.0"
edition = "2021"
publish = false

[dependencies]
byteorder = "1"
libc = "0.2"
termios = "0.3"
