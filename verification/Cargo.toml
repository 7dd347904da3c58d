[package]
name = "brightless"
version = "0.1.0"
edition = "2021"
publish = false

[dependencies]
ddc = "=0.2.2"
ddc-i2c = { version = "=0.2.2", features = ["with-linux"] }
i2c-linux = { version = "=0.1.2", features = ["i2c"] }
dirs = "=7.0.0"
serde = { version = "=1.0.229", features = ["derive"] }
serde_json = "=1.0.154"
thiserror = "=2.0.21"
glib = "=0.22.10"
gtk4 = "=0.11.5"
libadwaita = { version = "=0.9.2", features = ["v1_4"] }
