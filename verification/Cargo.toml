[package]
name = "gothook"
version = "0.1.0"
edition = "2021"
publish = false

[dependencies]
object = { version = "0.32", default-features = false, features = ["read_core", "elf", "unaligned"] }
libc = "0.2"
nix = "0.26"
procfs = "0.16"
thiserror = "1"
ctor = "0.2"
lazy_static = "1"
