[package]
name = "stompbox"
version = "0.1.0"
edition = "2021"
publish = false

[dependencies]
cpal = "0.13"
freeverb = "0.1"
ringbuf = "0.2"
