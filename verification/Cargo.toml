[package]
name = "smashnet_nro"
version = "0.1.0"
edition = "2021"
publish = false

[dependencies]
md5 = "=0.7.0"
minreq = "=2.14.1"
curl-sys = "=0.4.91"
skyline = "=0.6.0"
skyline-web = "=0.2.0"
