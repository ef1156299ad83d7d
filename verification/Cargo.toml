[package]
name = "rustbox"
version = "0.1.0"
edition = "2021"
publish = false

[dependencies]
gag = "0.1"
libc = "0.2"
num = { version = "0.1", default-features = false }
termbox-sys = "0.2"
time = "0.1"
