[package]
name = "stratis_backstore"
version = "0.1.0"
edition = "2021"
publish = false

[dependencies]
data-encoding = "=2.11.1"
devicemapper = "=0.28.1"
uuid = "=1.27.0"
libc = "=0.2.190"
