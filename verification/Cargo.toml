[package]
name = "elf_sections"
version = "0.1.0"
edition = "2021"
publish = false

[dependencies]
bitflags = "0.7"
