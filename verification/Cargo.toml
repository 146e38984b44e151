[package]
name = "nb_utils"
version = "0.1.0"
edition = "2021"
publish = false

[dependencies]
nb = "1"
futures-util = "0.3"

[dev-dependencies]
spin_on = "0.1"
