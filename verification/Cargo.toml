[package]
name = "sip_server"
version = "0.1.0"
edition = "2021"
publish = false

[dependencies]
async-std = "=1.13.2"
async-trait = "=0.1.92"
env_logger = "=0.11.10"
futures = "=0.3.34"
libsip = "=0.2.6"
log = "=0.4.34"
nom = "=6.0.0-alpha1"
rand = "=0.8.8"
