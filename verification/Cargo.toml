[package]
name = "livesplit_auto_splitting"
version = "0.1.0"
edition = "2021"
publish = false

[dependencies]
sysinfo = "*"
proc-maps = "*"
read-process-memory = "*"
wasmi = "*"
log = "*"
rand = "*"
