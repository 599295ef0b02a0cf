[package]
name = "kickmess"
version = "0.2.21"
edition = "2021"
publish = false

[dependencies]
ringbuf = "0.2"
vst = "0.2"
keyboard-types = "0.5"
