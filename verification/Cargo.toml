[package]
name = "rcore_os"
version = "0.1.0"
edition = "2021"
publish = false

[dependencies]
sbi-rt = "=0.0.4"
lazy_static = "=1.5.1"
