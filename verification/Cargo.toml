[package]
name = "tdisplay"
version = "0.1.0"
edition = "2021"
publish = false

[dependencies]
ringbuf = "0.3"
embedded-graphics = "0.7"
embedded-text = "0.5"
mipidsi = "0.6"
display-interface-parallel-gpio = "0.6"
esp-idf-hal = "0.40"
esp-idf-sys = "0.32"
esp-idf-svc = "0.45"
log = "0.4"
