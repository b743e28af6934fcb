[package]
name = "skycam"
version = "0.1.0"
edition = "2021"
publish = false

[dependencies]
club-kdl = "=0.12.0"
ctrlc = "3"
duration-string = "=0.5.3"
eyre = "0.6"
futures-util = "0.3"
generic-camera = { version = "=0.0.12", features = ["dummy"] }
image = { version = "=0.25.10", default-features = false, features = ["png"] }
jiff = "=0.2.39"
larpa = "0.1"
rand = "=0.10.3"
refimage = { version = "=1.0.0-pre4", features = ["image"] }
serialport = { version = "4", default-features = false }
smol = "2"
spdlog-rs = "0.5"
