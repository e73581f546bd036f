[package]
name = "rayflex"
version = "0.1.0"
edition = "2021"
publish = false

[dependencies]
serde = { version = "*", features = ["derive"] }
serde_json = "*"
tobj = "*"
rand = "0.8"
rayon = "*"
ctrlc = "*"
structopt = "0.3"
image = { version = "*", default-features = false, features = ["png"] }
