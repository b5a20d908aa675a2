[package]
name = "tradfri_gateway"
version = "0.1.0"
edition = "2021"
publish = false

[dependencies]
coap-lite = "=0.13.3"
chrono = "=0.4.45"
mdns-sd = "=0.21.4"
openssl-probe = "=0.2.1"
