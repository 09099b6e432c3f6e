[package]
name = "utsusu"
version = "0.1.0"
edition = "2021"
publish = false

[dependencies]
clap = { version = "=4.6.7", features = ["env"] }
directories = "=6.0.0"
globset = "=0.4.20"
saphyr = "=0.1.0"
tera = "=2.4.0"
