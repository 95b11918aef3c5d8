[package]
name = "cpu_sim"
version = "0.1.0"
edition = "2021"
publish = false

[dependencies]
elf = "0.7"
libc = "0.2"
ratatui = "0.29"
itertools = "0.13"
