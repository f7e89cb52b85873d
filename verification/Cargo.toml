[package]
name = "boxlite_hypervisor"
version = "0.1.0"
edition = "2021"
publish = false

[dependencies]
kvm-bindings = "=0.14.2"
kvm-ioctls = "=0.25.1"
libc = "=0.2.191"
vmm-sys-util = "=0.15.0"
