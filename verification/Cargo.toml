[package]
name = "strop"
version = "0.1.0"
edition = "2021"
publish = false

[dependencies]
rand = "=0.8.8"
mos6502 = "=0.6.2"
m68000 = "=0.2.3"
