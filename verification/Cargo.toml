[package]
name = "terminus_bl"
version = "0.1.0"
edition = "2021"
publish = false

[dependencies]
rustsbi = "=0.1.1"
embedded-hal = "=1.0.0-alpha.1"
nb = "=1.1.0"
riscv = "=0.6.0"
spin = "=0.7.2"
lazy_static = { version = "=1.5.1", features = ["spin_no_std"] }
linked_list_allocator = "=0.10.6"
