[package]
name = "bevy_rng"
version = "0.1.0"
edition = "2021"
publish = false

[dependencies]
bevy = { version = "0.8", default-features = false }
rand = "=0.8.8"
rand_seeder = "=0.2.3"
rand_xorshift = "=0.3.0"
