[package]
name = "scp03"
version = "0.1.0"
edition = "2021"
publish = false

[dependencies]
aes = "=0.9.3"
clear_on_drop = "=0.2.5"
cmac = "=0.8.0"
constant_time_eq = "=0.6.1"
