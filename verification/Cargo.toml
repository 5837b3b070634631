[package]
name = "peer_reviews"
version = "0.1.0"
edition = "2021"
publish = false

[dependencies]
bcrypt = "*"
chrono = "0.4"
rand = "0.6"
rand_hc = "0.1"
postgres = { version = "0.19", features = ["with-chrono-0_4"] }
rocket = { version = "0.5", features = ["secrets"] }
rocket_dyn_templates = { version = "*", features = ["handlebars"] }
serde = { version = "1", features = ["derive"] }
serde_derive = "1"
